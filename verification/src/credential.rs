//! A credential: an envelope that has been resolved to the kind it declares,
//! the version of the format it is in, and a subject that goes with the kind.

use crate::envelope::{
    default_context, default_type, lemma_members_model, read_members, DTGCommon, EnvelopeModel,
    MembersModel, CREDENTIALS_CONTEXT, DTG_CONTEXT, DTG_CREDENTIAL, VERIFIABLE_CREDENTIAL,
};
use crate::error::DTGCredentialError;
use crate::json::{Json, JsonTree};
use crate::kind::{lemma_resolve_first, lemma_tag_marks, DTGCredentialType, SubjectShape};
use crate::subject::{CredentialSubject, CredentialSubjectWitness, SubjectModel};
use crate::syntax::json_reading;
use crate::text::holds_text;
use crate::timestamp::Timestamp;
use crate::version::FormatVersion;
use affinidi_data_integrity::DataIntegrityProof;
use vstd::prelude::*;

verus! {

/// Defined DTG credentials.
#[derive(Debug)]
pub struct DTGCredential {
    /// The envelope of the credential.
    pub(crate) credential: DTGCommon,
    /// Type of the credential.
    pub(crate) type_: DTGCredentialType,
    /// The version of the format that the credential is in.
    pub(crate) version: FormatVersion,
}

/// The mathematical model of a credential.
pub struct CredentialModel {
    pub envelope: EnvelopeModel,
    pub kind: DTGCredentialType,
    pub version: FormatVersion,
}

impl Clone for DTGCredential {
    /// A copy of this credential: the same model.
    fn clone(&self) -> (copy: DTGCredential)
        ensures
            copy@ == self@,
    {
        proof {
            use_type_invariant(self);
        }
        DTGCredential {
            credential: self.credential.clone(),
            type_: self.type_,
            version: self.version,
        }
    }
}

impl View for DTGCredential {
    type V = CredentialModel;

    closed spec fn view(&self) -> CredentialModel {
        CredentialModel { envelope: self.credential@, kind: self.type_, version: self.version }
    }
}

impl CredentialModel {
    /// The subject with which a credential of a kind is settled: the subject
    /// as it is where it has the shape that goes with the kind; for a witness,
    /// a basic subject too, which becomes a witness without digest and without
    /// context. `None` where kind and subject do not go together.
    pub open spec fn settle(kind: DTGCredentialType, subject: SubjectModel) -> Option<SubjectModel> {
        if subject.shape() == kind.shape() {
            Some(subject)
        } else if kind.shape() == SubjectShape::Witness && subject.shape() == SubjectShape::Basic {
            Some(SubjectModel::Witness { id: subject.id(), digest: None, witness_context: None })
        } else {
            None
        }
    }

    /// What the resolution of a kind, a version and a subject comes to.
    pub open spec fn compose(
        envelope: EnvelopeModel,
        kind: Option<DTGCredentialType>,
        version: Option<FormatVersion>,
        subject: Result<SubjectModel, DTGCredentialError>,
    ) -> Result<CredentialModel, DTGCredentialError> {
        match (kind, version, subject) {
            (None, _, _) => Err(DTGCredentialError::UnknownCredentialKind),
            (Some(_), None, _) => Err(DTGCredentialError::UnknownFormatVersion),
            (Some(_), Some(_), Err(refusal)) => Err(refusal),
            (Some(kind), Some(version), Ok(subject)) => match Self::settle(kind, subject) {
                Some(subject) => Ok(
                    CredentialModel {
                        envelope: EnvelopeModel { subject, ..envelope },
                        kind,
                        version,
                    },
                ),
                None => Err(DTGCredentialError::UnknownCredential),
            },
        }
    }

    /// The credential that an envelope resolves to. The kind is resolved
    /// first, then the version, then the subject is held against the kind; the
    /// first of these that fails gives the error.
    pub open spec fn resolve(envelope: EnvelopeModel) -> Result<
        CredentialModel,
        DTGCredentialError,
    > {
        Self::compose(
            envelope,
            DTGCredentialType::resolve(envelope.type_),
            FormatVersion::detected(envelope.context),
            Ok(envelope.subject),
        )
    }

    /// The credential that a document stands for: what its members give,
    /// resolved as an envelope is, the subject from its raw payload.
    /// `Err(None)` where the document is no envelope.
    pub open spec fn read(document: JsonTree) -> Result<CredentialModel, Option<DTGCredentialError>> {
        match MembersModel::read(document) {
            Some(members) => match Self::compose(
                members.with_subject(SubjectModel::Basic { id: Seq::empty() }),
                DTGCredentialType::resolve(members.type_),
                FormatVersion::detected(members.context),
                SubjectModel::resolve(members.payload),
            ) {
                Ok(credential) => Ok(credential),
                Err(refusal) => Err(Some(refusal)),
            },
            None => Err(None),
        }
    }

    /// The credential that a text stands for. `Err(None)` where the text is
    /// not JSON, or the document no envelope.
    pub open spec fn read_text(text: Seq<char>) -> Result<CredentialModel, Option<DTGCredentialError>> {
        match json_reading(text) {
            Some(document) => Self::read(document),
            None => Err(None),
        }
    }

    /// The text of the credential on one line, where it has one.
    pub open spec fn text(self) -> Option<Seq<char>> {
        match self.envelope.document() {
            Some(document) => Json::written(document),
            None => None,
        }
    }

    /// The indented text of the credential, where it has one.
    pub open spec fn pretty_text(self) -> Option<Seq<char>> {
        match self.envelope.document() {
            Some(document) => Json::written_pretty(document),
            None => None,
        }
    }

    /// The tags of a credential that a constructor makes: the two that every
    /// DTG credential has, the tag of its kind, and the mark of personhood
    /// where it is asked for.
    pub open spec fn built_tags(kind: DTGCredentialType, marked: bool) -> Seq<Seq<char>> {
        seq![VERIFIABLE_CREDENTIAL@, DTG_CREDENTIAL@, kind.tag()] + if marked {
            seq![DTGCredentialType::Personhood.tag()]
        } else {
            seq![]
        }
    }

    /// The credential that a constructor makes: in the current version of
    /// the format, with the two contexts that every DTG credential has, and
    /// without a proof.
    pub open spec fn built(
        issuer: Seq<char>,
        valid_from: Timestamp,
        valid_until: Option<Timestamp>,
        subject: SubjectModel,
        kind: DTGCredentialType,
        marked: bool,
    ) -> CredentialModel {
        CredentialModel {
            envelope: EnvelopeModel {
                context: seq![CREDENTIALS_CONTEXT@, DTG_CONTEXT@],
                type_: Self::built_tags(kind, marked),
                issuer,
                valid_from,
                valid_until,
                subject,
                proof: None,
            },
            kind,
            version: FormatVersion::V2,
        }
    }

    /// The credential with this proof in place of what proof it had.
    pub open spec fn with_proof(self, proof: DataIntegrityProof) -> CredentialModel {
        CredentialModel {
            envelope: EnvelopeModel { proof: Some(proof), ..self.envelope },
            ..self
        }
    }

    /// Whether the document of the credential keeps all that the credential
    /// holds: the credential carries no proof, each of its instants is kept
    /// by its text, the context of a witness is not the null value, which a
    /// document cannot tell from a missing context, and what the subject
    /// holds is in order, as a document has it.
    pub open spec fn kept_by_document(self) -> bool {
        &&& self.envelope.proof is None
        &&& self.envelope.valid_from.survives_text()
        &&& match self.envelope.valid_until {
            Some(until) => until.survives_text(),
            None => true,
        }
        &&& match self.envelope.subject {
            SubjectModel::Witness { witness_context, .. } => witness_context != Some(JsonTree::Null),
            _ => true,
        }
        &&& self.envelope.subject.ordered()
    }

    /// Whether the credential is what its own envelope resolves to.
    pub open spec fn resolved(self) -> bool {
        Self::resolve(self.envelope) == Ok::<CredentialModel, DTGCredentialError>(self)
    }

    /// Whether the credential carries the mark of personhood among its tags.
    pub open spec fn personhood(self) -> bool {
        self.envelope.type_.contains(DTGCredentialType::Personhood.tag())
    }
}

/// What an envelope resolves to, its own envelope resolves to again.
pub proof fn lemma_resolution_settles(envelope: EnvelopeModel)
    ensures
        CredentialModel::resolve(envelope) matches Ok(credential) ==> credential.resolved(),
{
}

/// The context of a constructed credential names the current version of the
/// format.
pub proof fn lemma_built_version()
    ensures
        FormatVersion::detected(seq![CREDENTIALS_CONTEXT@, DTG_CONTEXT@]) == Some(
            FormatVersion::V2,
        ),
{
    reveal_strlit("https://www.w3.org/2018/credentials/v1");
    reveal_strlit("https://www.w3.org/ns/credentials/v2");
    reveal_strlit("https://firstperson.network/credentials/dtg/v1");
    let context = seq![CREDENTIALS_CONTEXT@, DTG_CONTEXT@];
    assert(CREDENTIALS_CONTEXT@ == "https://www.w3.org/ns/credentials/v2"@);
    assert(DTG_CONTEXT@ == "https://firstperson.network/credentials/dtg/v1"@);
    assert(context[0] == FormatVersion::V2.context());
    assert(context[0].len() == 36);
    assert(context[1].len() == 46);
    assert(FormatVersion::V1.context().len() == 38);
}

/// The tags of a constructed credential declare its kind.
pub proof fn lemma_built_kind(kind: DTGCredentialType, marked: bool)
    requires
        marked ==> kind == DTGCredentialType::Membership,
    ensures
        DTGCredentialType::resolve(CredentialModel::built_tags(kind, marked)) == Some(kind),
{
    lemma_tag_marks();
    reveal_strlit("VerifiableCredential");
    reveal_strlit("DTGCredential");
    let tags = CredentialModel::built_tags(kind, marked);
    assert(VERIFIABLE_CREDENTIAL@ == "VerifiableCredential"@);
    assert(DTG_CREDENTIAL@ == "DTGCredential"@);
    assert(tags[0].len() == 20 && tags[0][0] == 'V');
    assert(tags[1].len() == 13);
    assert(tags[2] == kind.tag());
    assert forall|other: DTGCredentialType| other.rank() < kind.rank() implies !tags.contains(
        #[trigger] other.tag(),
    ) by {
        if tags.contains(other.tag()) {
            let at = choose|at: int| 0 <= at < tags.len() && tags[at] == other.tag();
            if at == 0 {
                assert(other.tag()[0] == 'V');
            } else if at == 1 {
                assert(other.tag().len() == 13);
            } else if at == 2 {
                assert(other.tag() == kind.tag());
            } else {
                assert(other.tag() == DTGCredentialType::Personhood.tag());
            }
        }
    }
    lemma_resolve_first(tags, kind);
}

/// What a constructor makes is what its own envelope resolves to.
pub proof fn lemma_built_resolves(
    issuer: Seq<char>,
    valid_from: Timestamp,
    valid_until: Option<Timestamp>,
    subject: SubjectModel,
    kind: DTGCredentialType,
    marked: bool,
)
    requires
        subject.shape() == kind.shape(),
        marked ==> kind == DTGCredentialType::Membership,
    ensures
        CredentialModel::built(issuer, valid_from, valid_until, subject, kind, marked).resolved(),
{
    lemma_built_version();
    lemma_built_kind(kind, marked);
}

/// Settles a subject with a kind.
fn settle(kind: DTGCredentialType, subject: CredentialSubject) -> (outcome: Option<
    CredentialSubject,
>)
    ensures
        match outcome {
            Some(made) => CredentialModel::settle(kind, subject@) == Some(made@) && made
                == settled(kind, subject),
            None => CredentialModel::settle(kind, subject@) is None,
        },
{
    let wanted = kind.subject_shape();
    let found = subject.shape();
    if found == wanted {
        Some(subject)
    } else if wanted == SubjectShape::Witness {
        match subject {
            CredentialSubject::Basic(basic) => Some(
                CredentialSubject::Witness(
                    CredentialSubjectWitness { id: basic.id, digest: None, witness_context: None },
                ),
            ),
            _ => None,
        }
    } else {
        None
    }
}

impl TryFrom<DTGCommon> for DTGCredential {
    type Error = DTGCredentialError;

    /// Resolves an envelope to a credential: the kind that its tags declare,
    /// the version that its context names, and its subject held against the
    /// kind. A witness may come with a basic subject, which becomes a witness
    /// without digest and without context; every other mismatch of kind and
    /// subject is refused.
    fn try_from(value: DTGCommon) -> (resolved: Result<DTGCredential, DTGCredentialError>)
        ensures
            match resolved {
                Ok(credential) => CredentialModel::resolve(value@) == Ok::<
                    CredentialModel,
                    DTGCredentialError,
                >(credential@),
                Err(error) => CredentialModel::resolve(value@) == Err::<
                    CredentialModel,
                    DTGCredentialError,
                >(error),
            },
    {
        let type_ = DTGCredentialType::try_from(value.type_.as_slice())?;
        let version = FormatVersion::detect(value.context.as_slice())?;
        let ghost envelope = value@;
        let DTGCommon {
            context,
            type_: tags,
            issuer,
            valid_from,
            valid_until,
            credential_subject,
            proof,
        } = value;
        match settle(type_, credential_subject) {
            Some(credential_subject) => {
                let credential = DTGCommon {
                    context,
                    type_: tags,
                    issuer,
                    valid_from,
                    valid_until,
                    credential_subject,
                    proof,
                };
                proof {
                    lemma_resolution_settles(envelope);
                }
                Ok(DTGCredential { credential, type_, version })
            },
            None => Err(DTGCredentialError::UnknownCredential),
        }
    }
}

/// The subject of an envelope as a credential of a kind holds it: a basic
/// subject of a witness becomes a witness, every other subject stays.
pub open spec fn settled(kind: DTGCredentialType, subject: CredentialSubject) -> CredentialSubject {
    match subject {
        CredentialSubject::Basic(basic) => if kind.shape() == SubjectShape::Witness {
            CredentialSubject::Witness(
                CredentialSubjectWitness { id: basic.id, digest: None, witness_context: None },
            )
        } else {
            subject
        },
        _ => subject,
    }
}

impl vstd::std_specs::convert::TryFromSpecImpl<DTGCommon> for DTGCredential {
    open spec fn obeys_try_from_spec() -> bool {
        true
    }

    /// The credential that an envelope resolves to is the envelope itself,
    /// with its subject settled, under its kind and its version.
    closed spec fn try_from_spec(value: DTGCommon) -> Result<Self, DTGCredentialError> {
        match CredentialModel::resolve(value@) {
            Ok(model) => Ok(
                DTGCredential {
                    credential: DTGCommon {
                        credential_subject: settled(model.kind, value.credential_subject),
                        ..value
                    },
                    type_: model.kind,
                    version: model.version,
                },
            ),
            Err(error) => Err(error),
        }
    }
}

impl DTGCredential {
    /// Every credential is what its own envelope resolves to.
    #[verifier::type_invariant]
    pub closed spec fn well_formed(self) -> bool {
        self@.resolved()
    }

    /// Puts a credential together from its parts, as the constructors do.
    pub(crate) fn assemble(
        issuer: String,
        credential_subject: CredentialSubject,
        valid_from: Timestamp,
        valid_until: Option<Timestamp>,
        kind: DTGCredentialType,
        marked: bool,
    ) -> (credential: DTGCredential)
        requires
            credential_subject@.shape() == kind.shape(),
            marked ==> kind == DTGCredentialType::Membership,
        ensures
            credential@ == CredentialModel::built(
                issuer@,
                valid_from,
                valid_until,
                credential_subject@,
                kind,
                marked,
            ),
    {
        let mut type_ = default_type();
        assert(type_.deep_view().len() == 2);
        assert(type_.deep_view()[0] == VERIFIABLE_CREDENTIAL@);
        assert(type_.deep_view()[1] == DTG_CREDENTIAL@);
        type_.push(kind.to_string());
        if marked {
            type_.push(DTGCredentialType::Personhood.to_string());
        }
        assert(type_.deep_view() =~= CredentialModel::built_tags(kind, marked));
        proof {
            lemma_built_resolves(
                issuer@,
                valid_from,
                valid_until,
                credential_subject@,
                kind,
                marked,
            );
        }
        let credential = DTGCommon {
            context: default_context(),
            type_,
            issuer,
            valid_from,
            valid_until,
            credential_subject,
            proof: None,
        };
        DTGCredential { credential, type_: kind, version: FormatVersion::V2 }
    }

    /// Reads a credential from a document. The members of the envelope are
    /// read first; then the kind is resolved, the version, the subject from
    /// its raw payload, and the subject is held against the kind. The first
    /// of these that fails gives the error.
    pub fn from_document(document: &Json) -> (read: Result<DTGCredential, DTGCredentialError>)
        ensures
            match read {
                Ok(credential) => CredentialModel::read(document@) == Ok::<
                    CredentialModel,
                    Option<DTGCredentialError>,
                >(credential@),
                Err(error) => match CredentialModel::read(document@) {
                    Ok(_) => false,
                    Err(Some(refusal)) => error == refusal,
                    Err(None) => error is MalformedDocument,
                },
            },
    {
        let members = read_members(document)?;
        proof {
            lemma_members_model(&members);
        }
        let type_ = DTGCredentialType::try_from(members.type_.as_slice())?;
        let version = FormatVersion::detect(members.context.as_slice())?;
        let subject = CredentialSubject::from_payload(members.payload)?;
        match settle(type_, subject) {
            Some(credential_subject) => {
                let credential = DTGCommon {
                    context: members.context,
                    type_: members.type_,
                    issuer: members.issuer,
                    valid_from: members.valid_from,
                    valid_until: members.valid_until,
                    credential_subject,
                    proof: members.proof,
                };
                Ok(DTGCredential { credential, type_, version })
            },
            None => Err(DTGCredentialError::UnknownCredential),
        }
    }

    /// Reads a credential from JSON text.
    pub fn from_json(text: &str) -> (read: Result<DTGCredential, DTGCredentialError>)
        ensures
            match read {
                Ok(credential) => CredentialModel::read_text(text@) == Ok::<
                    CredentialModel,
                    Option<DTGCredentialError>,
                >(credential@),
                Err(error) => match CredentialModel::read_text(text@) {
                    Ok(_) => false,
                    Err(Some(refusal)) => error == refusal,
                    Err(None) => error is MalformedDocument,
                },
            },
    {
        let document = Json::parse(text)?;
        Self::from_document(&document)
    }

    /// Writes the credential as a document.
    pub fn to_document(&self) -> (written: Result<Json, DTGCredentialError>)
        ensures
            match written {
                Ok(document) => self@.envelope.document() == Some(document@),
                Err(error) => self@.envelope.document() is None && error is MalformedDocument,
            },
    {
        self.credential.to_document()
    }

    /// Writes the credential as JSON text on one line.
    pub fn to_json(&self) -> (written: Result<String, DTGCredentialError>)
        ensures
            match written {
                Ok(text) => self@.text() == Some(text@),
                Err(error) => self@.text() is None && error is MalformedDocument,
            },
    {
        let document = self.credential.to_document()?;
        document.to_text()
    }

    /// Writes the credential as JSON text, indented by two spaces a level.
    pub fn to_json_pretty(&self) -> (written: Result<String, DTGCredentialError>)
        ensures
            match written {
                Ok(text) => self@.pretty_text() == Some(text@),
                Err(error) => self@.pretty_text() is None && error is MalformedDocument,
            },
    {
        let document = self.credential.to_document()?;
        document.to_text_pretty()
    }

    /// Puts a proof on the credential, in place of what proof it had.
    pub fn attach(&mut self, proof: DataIntegrityProof)
        ensures
            final(self)@ == old(self)@.with_proof(proof),
    {
        proof {
            use_type_invariant(&*self);
        }
        self.credential.proof = Some(proof);
    }

    /// Whether the document of this credential keeps all that the credential
    /// holds. Where it does, the credential is read from its own document as
    /// itself.
    pub fn is_kept_by_document(&self) -> (kept: bool)
        ensures
            kept == self@.kept_by_document(),
            kept ==> self@.envelope.document() is Some && CredentialModel::read(
                self@.envelope.document()->Some_0,
            ) == Ok::<CredentialModel, Option<DTGCredentialError>>(self@),
    {
        proof {
            use_type_invariant(self);
            if self@.kept_by_document() {
                crate::laws::law_round_trip(self@);
            }
        }
        let until_kept = match self.credential.valid_until {
            Some(until) => until.is_kept_by_text(),
            None => true,
        };
        let context_kept = match &self.credential.credential_subject {
            CredentialSubject::Witness(witness) => match &witness.witness_context {
                Some(Json::Null) => false,
                _ => true,
            },
            _ => true,
        };
        !self.credential.signed() && self.credential.valid_from.is_kept_by_text() && until_kept
            && context_kept && self.credential.credential_subject.is_ordered()
    }

    /// Get the raw credential.
    pub fn credential(&self) -> (envelope: &DTGCommon)
        ensures
            envelope@ == self@.envelope,
    {
        &self.credential
    }

    /// Has this credential been signed? The proof itself is not looked at.
    pub fn signed(&self) -> (signed: bool)
        ensures
            signed == self@.envelope.signed(),
    {
        self.credential.signed()
    }

    /// Get the credential type: the kind that the tags of the envelope
    /// declare.
    pub fn type_(&self) -> (kind: DTGCredentialType)
        ensures
            kind == self@.kind,
            DTGCredentialType::resolve(self@.envelope.type_) == Some(kind),
    {
        proof {
            use_type_invariant(self);
        }
        self.type_
    }

    /// The version of the format that the credential is in: the version that
    /// the context of the envelope names.
    pub fn version(&self) -> (version: FormatVersion)
        ensures
            version == self@.version,
            FormatVersion::detected(self@.envelope.context) == Some(version),
    {
        proof {
            use_type_invariant(self);
        }
        self.version
    }

    /// Whether the credential carries the mark of personhood among its tags,
    /// whatever its kind.
    pub fn is_personhood(&self) -> (marked: bool)
        ensures
            marked == self@.personhood(),
    {
        holds_text(self.credential.type_.as_slice(), DTGCredentialType::Personhood.tag_str())
    }

    /// Returns the issuer DID.
    pub fn issuer(&self) -> (issuer: &str)
        ensures
            issuer@ == self@.envelope.issuer,
    {
        self.credential.issuer()
    }

    /// Returns the subject DID.
    pub fn subject(&self) -> (subject: &str)
        ensures
            subject@ == self@.envelope.subject.id(),
    {
        self.credential.subject()
    }

    /// Returns the valid_from timestamp.
    pub fn valid_from(&self) -> (instant: Timestamp)
        ensures
            instant == self@.envelope.valid_from,
    {
        self.credential.valid_from()
    }

    /// Returns the valid until timestamp.
    pub fn valid_until(&self) -> (instant: Option<Timestamp>)
        ensures
            instant == self@.envelope.valid_until,
    {
        self.credential.valid_until()
    }
}

} // verus!
