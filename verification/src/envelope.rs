//! The envelope that all credentials share, and its form as a document.

use crate::error::DTGCredentialError;
use crate::integrity::{proof_from_tree, proof_of, proof_tree, tree_from_proof};
use crate::json::{
    find, lemma_items_view, lemma_members_view, locate, members_view, Found, Json, JsonTree, Slot,
};
use crate::subject::{CredentialSubject, CredentialSubjectBasic, SubjectModel};
use crate::timestamp::Timestamp;
use crate::version::FormatVersion;
use affinidi_data_integrity::DataIntegrityProof;
use vstd::prelude::*;
use vstd::string::StringExecFns;

verus! {

/// The name of the member that holds the context links.
pub const CONTEXT: &'static str = "@context";

/// The name of the member that holds the type tags.
pub const TYPE: &'static str = "type";

/// The name of the member that holds the issuer.
pub const ISSUER: &'static str = "issuer";

/// The name of the member that holds the beginning of the validity window.
pub const VALID_FROM: &'static str = "validFrom";

/// The name of the member that holds the end of the validity window.
pub const VALID_UNTIL: &'static str = "validUntil";

/// The legacy name of the beginning of the validity window.
pub const ISSUANCE_DATE: &'static str = "issuanceDate";

/// The legacy name of the end of the validity window.
pub const EXPIRATION_DATE: &'static str = "expirationDate";

/// The name of the member that holds the subject.
pub const CREDENTIAL_SUBJECT: &'static str = "credentialSubject";

/// The name of the member that holds the proof.
pub const PROOF: &'static str = "proof";

/// The link to the context of verifiable credentials.
pub const CREDENTIALS_CONTEXT: &'static str = "https://www.w3.org/ns/credentials/v2";

/// The link to the context of DTG credentials.
pub const DTG_CONTEXT: &'static str = "https://firstperson.network/credentials/dtg/v1";

/// The tag that every verifiable credential has.
pub const VERIFIABLE_CREDENTIAL: &'static str = "VerifiableCredential";

/// The tag that every DTG credential has.
pub const DTG_CREDENTIAL: &'static str = "DTGCredential";

/// All DTG credentials follow a common structure.
#[derive(Debug)]
pub struct DTGCommon {
    /// JSON-LD links to contexts.
    pub context: Vec<String>,
    /// Credential type identifiers.
    pub type_: Vec<String>,
    /// DID of the entity issuing this credential.
    pub issuer: String,
    /// When this credential becomes valid.
    pub valid_from: Timestamp,
    /// Until when this credential is valid; open where there is none.
    pub valid_until: Option<Timestamp>,
    /// The assertion between the entities involved.
    pub credential_subject: CredentialSubject,
    /// Cryptographic proof of credential authenticity.
    pub proof: Option<DataIntegrityProof>,
}

/// The mathematical model of an envelope.
pub struct EnvelopeModel {
    pub context: Seq<Seq<char>>,
    pub type_: Seq<Seq<char>>,
    pub issuer: Seq<char>,
    pub valid_from: Timestamp,
    pub valid_until: Option<Timestamp>,
    pub subject: SubjectModel,
    pub proof: Option<DataIntegrityProof>,
}

/// What the members of a document give, before the subject is resolved.
pub struct MembersModel {
    pub context: Seq<Seq<char>>,
    pub type_: Seq<Seq<char>>,
    pub issuer: Seq<char>,
    pub valid_from: Timestamp,
    pub valid_until: Option<Timestamp>,
    pub payload: JsonTree,
    pub proof: Option<DataIntegrityProof>,
}

impl Clone for DTGCommon {
    /// A copy of this envelope: the same model.
    fn clone(&self) -> (copy: DTGCommon)
        ensures
            copy@ == self@,
    {
        let carried = &self.proof;
        DTGCommon {
            context: crate::text::copy_texts(&self.context),
            type_: crate::text::copy_texts(&self.type_),
            issuer: self.issuer.clone(),
            valid_from: self.valid_from,
            valid_until: self.valid_until,
            credential_subject: self.credential_subject.clone(),
            proof: match carried {
                Some(held) => Some(held.clone()),
                None => None,
            },
        }
    }
}

impl View for DTGCommon {
    type V = EnvelopeModel;

    open spec fn view(&self) -> EnvelopeModel {
        EnvelopeModel {
            context: self.context.deep_view(),
            type_: self.type_.deep_view(),
            issuer: self.issuer@,
            valid_from: self.valid_from,
            valid_until: self.valid_until,
            subject: self.credential_subject@,
            proof: self.proof,
        }
    }
}

/// The list that a tree is, where it is a list of texts.
pub open spec fn text_list(tree: JsonTree) -> Option<Seq<Seq<char>>> {
    match tree {
        JsonTree::List(items) => if forall|at: int|
            0 <= at < items.len() ==> (#[trigger] items[at]) is Text {
            Some(Seq::new(items.len(), |at: int| items[at]->Text_0))
        } else {
            None
        },
        _ => None,
    }
}

/// The tree of a list of texts.
pub open spec fn list_of_texts(texts: Seq<Seq<char>>) -> JsonTree {
    JsonTree::List(Seq::new(texts.len(), |at: int| JsonTree::Text(texts[at])))
}

/// The search for a member that has two names: it is found where one of the
/// names is, and the other is not.
pub open spec fn find_either(
    members: Seq<(Seq<char>, JsonTree)>,
    name: Seq<char>,
    other: Seq<char>,
) -> Found {
    match (find(members, name), find(members, other)) {
        (Found::Absent, found) => found,
        (found, Found::Absent) => found,
        _ => Found::Repeated,
    }
}

/// The instant that a member gives, where it is the text of one.
pub open spec fn instant_of(tree: JsonTree) -> Option<Timestamp> {
    match tree {
        JsonTree::Text(text) => Timestamp::reading(text),
        _ => None,
    }
}

impl MembersModel {
    /// What the members of a document give. The document is a record. It
    /// has `@context` and `type`, lists of texts; `issuer`, a text;
    /// `validFrom` or, for it, `issuanceDate`, the text of an instant;
    /// `credentialSubject`; it may have `validUntil` or, for it,
    /// `expirationDate`, and `proof`, each of which may be null. Each of
    /// these stands once at most; other members are passed over.
    pub open spec fn read(document: JsonTree) -> Option<MembersModel> {
        match document {
            JsonTree::Record(members) => {
                match (
                    find(members, CONTEXT@),
                    find(members, TYPE@),
                    find(members, ISSUER@),
                    find_either(members, VALID_FROM@, ISSUANCE_DATE@),
                    find(members, CREDENTIAL_SUBJECT@),
                ) {
                    (
                        Found::Once(context),
                        Found::Once(type_),
                        Found::Once(JsonTree::Text(issuer)),
                        Found::Once(valid_from),
                        Found::Once(payload),
                    ) => {
                        match (
                            text_list(context),
                            text_list(type_),
                            instant_of(valid_from),
                            Self::read_until(members),
                            Self::read_proof(members),
                        ) {
                            (
                                Some(context),
                                Some(type_),
                                Some(valid_from),
                                Some(valid_until),
                                Some(proof),
                            ) => Some(
                                MembersModel {
                                    context,
                                    type_,
                                    issuer,
                                    valid_from,
                                    valid_until,
                                    payload,
                                    proof,
                                },
                            ),
                            _ => None,
                        }
                    },
                    _ => None,
                }
            },
            _ => None,
        }
    }

    /// The end of the validity window that the members give: none where the
    /// member is missing or null. `None` where the member is there and gives
    /// no instant.
    pub open spec fn read_until(members: Seq<(Seq<char>, JsonTree)>) -> Option<Option<Timestamp>> {
        match find_either(members, VALID_UNTIL@, EXPIRATION_DATE@) {
            Found::Absent => Some(None),
            Found::Once(JsonTree::Null) => Some(None),
            Found::Once(until) => match instant_of(until) {
                Some(instant) => Some(Some(instant)),
                None => None,
            },
            Found::Repeated => None,
        }
    }

    /// The proof that the members give: none where the member is missing or
    /// null. `None` where the member is there and gives no proof.
    pub open spec fn read_proof(members: Seq<(Seq<char>, JsonTree)>) -> Option<
        Option<DataIntegrityProof>,
    > {
        match find(members, PROOF@) {
            Found::Absent => Some(None),
            Found::Once(JsonTree::Null) => Some(None),
            Found::Once(proof) => match proof_of(proof) {
                Some(proof) => Some(Some(proof)),
                None => None,
            },
            Found::Repeated => None,
        }
    }

    /// The envelope with this subject.
    pub open spec fn with_subject(self, subject: SubjectModel) -> EnvelopeModel {
        EnvelopeModel {
            context: self.context,
            type_: self.type_,
            issuer: self.issuer,
            valid_from: self.valid_from,
            valid_until: self.valid_until,
            subject,
            proof: self.proof,
        }
    }
}

impl EnvelopeModel {
    /// Whether the envelope carries a proof.
    pub open spec fn signed(self) -> bool {
        self.proof is Some
    }

    /// The envelope without its proof.
    pub open spec fn unsigned(self) -> EnvelopeModel {
        EnvelopeModel { proof: None, ..self }
    }

    /// The names under which the envelope gives its validity window: the
    /// legacy names where its context names the legacy version, the current
    /// ones otherwise.
    pub open spec fn window_version(self) -> FormatVersion {
        match FormatVersion::detected(self.context) {
            Some(version) => version,
            None => FormatVersion::V2,
        }
    }

    /// The member that gives the end of the validity window, where there is
    /// one. `None` where the instant has no text.
    pub open spec fn until_members(self) -> Option<Seq<(Seq<char>, JsonTree)>> {
        match self.valid_until {
            Some(until) => match until.text() {
                Some(text) => Some(
                    seq![(self.window_version().valid_until_name(), JsonTree::Text(text))],
                ),
                None => None,
            },
            None => Some(seq![]),
        }
    }

    /// The member that gives the proof, where there is one. `None` where the
    /// proof has no tree.
    pub open spec fn proof_members(self) -> Option<Seq<(Seq<char>, JsonTree)>> {
        match self.proof {
            Some(proof) => match proof_tree(proof) {
                Some(tree) => Some(seq![(PROOF@, tree)]),
                None => None,
            },
            None => Some(seq![]),
        }
    }

    /// The document that stands for the envelope: its members in the order
    /// `@context`, `type`, `issuer`, the beginning of the validity window, its
    /// end where it has one, `credentialSubject`, and `proof` where it has one.
    /// Instants are written to the second, in UTC. `None` where an instant has
    /// no text, or the proof no tree.
    pub open spec fn document(self) -> Option<JsonTree> {
        match (self.valid_from.text(), self.until_members(), self.proof_members()) {
            (Some(from), Some(until), Some(proof)) => Some(
                JsonTree::Record(
                    seq![
                        (CONTEXT@, list_of_texts(self.context)),
                        (TYPE@, list_of_texts(self.type_)),
                        (ISSUER@, JsonTree::Text(self.issuer)),
                        (self.window_version().valid_from_name(), JsonTree::Text(from)),
                    ] + until + seq![(CREDENTIAL_SUBJECT@, self.subject.payload())] + proof,
                ),
            ),
            _ => None,
        }
    }
}

/// What the members of a document give, before the subject is resolved.
pub(crate) struct Members<'a> {
    pub context: Vec<String>,
    pub type_: Vec<String>,
    pub issuer: String,
    pub valid_from: Timestamp,
    pub valid_until: Option<Timestamp>,
    pub payload: &'a Json,
    pub proof: Option<DataIntegrityProof>,
}

impl<'a> View for Members<'a> {
    type V = MembersModel;

    closed spec fn view(&self) -> MembersModel {
        MembersModel {
            context: self.context.deep_view(),
            type_: self.type_.deep_view(),
            issuer: self.issuer@,
            valid_from: self.valid_from,
            valid_until: self.valid_until,
            payload: self.payload@,
            proof: self.proof,
        }
    }
}

/// The model of what was read has each part by its view.
pub(crate) proof fn lemma_members_model(members: &Members)
    ensures
        members@ == (MembersModel {
            context: members.context.deep_view(),
            type_: members.type_.deep_view(),
            issuer: members.issuer@,
            valid_from: members.valid_from,
            valid_until: members.valid_until,
            payload: members.payload@,
            proof: members.proof,
        }),
{
}

/// The error of a document that is no envelope.
fn malformed(detail: &str) -> (error: DTGCredentialError)
    ensures
        error is MalformedDocument,
{
    DTGCredentialError::MalformedDocument(String::from_str(detail))
}

/// The list that a tree is, where it is a list of texts.
fn texts_from_tree(tree: &Json) -> (texts: Option<Vec<String>>)
    ensures
        match texts {
            Some(texts) => text_list(tree@) == Some(texts.deep_view()),
            None => text_list(tree@) is None,
        },
{
    match tree {
        Json::List(items) => {
            proof {
                lemma_items_view(*items);
            }
            let ghost view = tree@->List_0;
            let mut texts: Vec<String> = Vec::new();
            let mut at: usize = 0;
            while at < items.len()
                invariant
                    at <= items.len(),
                    texts.len() == at,
                    tree@ == JsonTree::List(view),
                    view.len() == items.len(),
                    forall|each: int| 0 <= each < items.len() ==> #[trigger] view[each] == items[each]@,
                    forall|before: int|
                        0 <= before < at ==> (#[trigger] view[before]) == JsonTree::Text(
                            texts[before]@,
                        ),
                decreases items.len() - at,
            {
                match &items[at] {
                    Json::Text(text) => {
                        texts.push(text.clone());
                    },
                    _ => {
                        assert(!(view[at as int] is Text));
                        return None;
                    },
                }
                at = at + 1;
            }
            assert(texts.deep_view() =~= text_list(tree@)->Some_0);
            Some(texts)
        },
        _ => None,
    }
}

/// The tree of a list of texts.
fn tree_from_texts(texts: &Vec<String>) -> (tree: Json)
    ensures
        tree@ == list_of_texts(texts.deep_view()),
{
    let mut items: Vec<Json> = Vec::new();
    let mut at: usize = 0;
    while at < texts.len()
        invariant
            at <= texts.len(),
            items.len() == at,
            forall|before: int| 0 <= before < at ==> items[before]@ == JsonTree::Text(texts[before]@),
        decreases texts.len() - at,
    {
        items.push(Json::Text(texts[at].clone()));
        at = at + 1;
    }
    proof {
        lemma_items_view(items);
        assert(Json::List(items)@->List_0 =~= list_of_texts(texts.deep_view())->List_0);
    }
    Json::List(items)
}

/// Searches the members for a member that has two names.
fn locate_either(members: &Vec<(String, Json)>, name: &str, other: &str) -> (slot: Slot)
    ensures
        match slot {
            Slot::Absent => find_either(members_view(*members), name@, other@) is Absent,
            Slot::At(at) => at < members.len() && find_either(
                members_view(*members),
                name@,
                other@,
            ) == Found::Once(members[at as int].1@),
            Slot::Repeated => find_either(members_view(*members), name@, other@) is Repeated,
        },
{
    match (locate(members, name), locate(members, other)) {
        (Slot::Absent, found) => found,
        (found, Slot::Absent) => found,
        _ => Slot::Repeated,
    }
}

/// The instant that a member gives, where it is the text of one.
fn instant_from_tree(tree: &Json) -> (instant: Option<Timestamp>)
    ensures
        instant == instant_of(tree@),
{
    match tree {
        Json::Text(text) => Timestamp::parse(text.as_str()),
        _ => None,
    }
}

/// The end of the validity window that the members give.
fn until_from_members(members: &Vec<(String, Json)>) -> (until: Option<Option<Timestamp>>)
    ensures
        until == MembersModel::read_until(members_view(*members)),
{
    match locate_either(members, VALID_UNTIL, EXPIRATION_DATE) {
        Slot::Absent => Some(None),
        Slot::At(at) => match &members[at].1 {
            Json::Null => Some(None),
            until => match instant_from_tree(until) {
                Some(instant) => Some(Some(instant)),
                None => None,
            },
        },
        Slot::Repeated => None,
    }
}

/// The proof that the members give.
fn proof_from_members(members: &Vec<(String, Json)>) -> (proof: Option<Option<DataIntegrityProof>>)
    ensures
        proof == MembersModel::read_proof(members_view(*members)),
{
    match locate(members, PROOF) {
        Slot::Absent => Some(None),
        Slot::At(at) => match &members[at].1 {
            Json::Null => Some(None),
            proof => match proof_from_tree(proof) {
                Some(proof) => Some(Some(proof)),
                None => None,
            },
        },
        Slot::Repeated => None,
    }
}

/// Reads the members of a document.
pub(crate) fn read_members<'a>(document: &'a Json) -> (read: Result<Members<'a>, DTGCredentialError>)
    ensures
        match read {
            Ok(members) => MembersModel::read(document@) == Some(members@),
            Err(error) => MembersModel::read(document@) is None && error is MalformedDocument,
        },
{
    let members = match document {
        Json::Record(members) => members,
        _ => {
            return Err(malformed("the document is not a record"));
        },
    };
    let context = match locate(members, CONTEXT) {
        Slot::At(at) => match texts_from_tree(&members[at].1) {
            Some(context) => context,
            None => {
                return Err(malformed("`@context` is not a list of texts"));
            },
        },
        _ => {
            return Err(malformed("`@context` must stand once"));
        },
    };
    let type_ = match locate(members, TYPE) {
        Slot::At(at) => match texts_from_tree(&members[at].1) {
            Some(type_) => type_,
            None => {
                return Err(malformed("`type` is not a list of texts"));
            },
        },
        _ => {
            return Err(malformed("`type` must stand once"));
        },
    };
    let issuer = match locate(members, ISSUER) {
        Slot::At(at) => match &members[at].1 {
            Json::Text(issuer) => issuer.clone(),
            _ => {
                return Err(malformed("`issuer` is not a text"));
            },
        },
        _ => {
            return Err(malformed("`issuer` must stand once"));
        },
    };
    let valid_from = match locate_either(members, VALID_FROM, ISSUANCE_DATE) {
        Slot::At(at) => match instant_from_tree(&members[at].1) {
            Some(instant) => instant,
            None => {
                return Err(malformed("`validFrom` is not the text of an instant"));
            },
        },
        _ => {
            return Err(malformed("`validFrom` must stand once"));
        },
    };
    let payload = match locate(members, CREDENTIAL_SUBJECT) {
        Slot::At(at) => &members[at].1,
        _ => {
            return Err(malformed("`credentialSubject` must stand once"));
        },
    };
    let valid_until = match until_from_members(members) {
        Some(until) => until,
        None => {
            return Err(malformed("`validUntil` is not the text of an instant"));
        },
    };
    let proof = match proof_from_members(members) {
        Some(proof) => proof,
        None => {
            return Err(malformed("`proof` is not a proof"));
        },
    };
    Ok(Members { context, type_, issuer, valid_from, valid_until, payload, proof })
}

impl EnvelopeModel {
    /// The envelope that a document stands for: what its members give, with
    /// the subject that the payload resolves to. `Err(None)` where the
    /// document is no envelope, `Err(Some(..))` where the subject is refused.
    pub open spec fn read(document: JsonTree) -> Result<EnvelopeModel, Option<DTGCredentialError>> {
        match MembersModel::read(document) {
            Some(members) => match SubjectModel::resolve(members.payload) {
                Ok(subject) => Ok(members.with_subject(subject)),
                Err(error) => Err(Some(error)),
            },
            None => Err(None),
        }
    }

    /// The envelope of a credential that has nothing of its own yet: the two
    /// contexts and the two tags that every DTG credential has.
    pub open spec fn blank(self) -> bool {
        &&& self.context == seq![CREDENTIALS_CONTEXT@, DTG_CONTEXT@]
        &&& self.type_ == seq![VERIFIABLE_CREDENTIAL@, DTG_CREDENTIAL@]
        &&& self.issuer == Seq::<char>::empty()
        &&& self.valid_until is None
        &&& self.subject == (SubjectModel::Basic { id: Seq::<char>::empty() })
        &&& self.proof is None
    }
}

/// The two contexts that every DTG credential has.
pub fn default_context() -> (context: Vec<String>)
    ensures
        context.deep_view() == seq![CREDENTIALS_CONTEXT@, DTG_CONTEXT@],
{
    let mut context: Vec<String> = Vec::new();
    context.push(String::from_str(CREDENTIALS_CONTEXT));
    context.push(String::from_str(DTG_CONTEXT));
    assert(context.deep_view() =~= seq![CREDENTIALS_CONTEXT@, DTG_CONTEXT@]);
    context
}

/// The two tags that every DTG credential has.
pub fn default_type() -> (type_: Vec<String>)
    ensures
        type_.deep_view() == seq![VERIFIABLE_CREDENTIAL@, DTG_CREDENTIAL@],
{
    let mut type_: Vec<String> = Vec::new();
    type_.push(String::from_str(VERIFIABLE_CREDENTIAL));
    type_.push(String::from_str(DTG_CREDENTIAL));
    assert(type_.deep_view() =~= seq![VERIFIABLE_CREDENTIAL@, DTG_CREDENTIAL@]);
    type_
}

impl Default for DTGCommon {
    /// The envelope of a credential that has nothing of its own yet, valid
    /// from the present instant on: the blank envelope at the reading of the
    /// clock, which has a text in a document.
    fn default() -> (envelope: DTGCommon)
        ensures
            envelope@.blank(),
            envelope@.valid_from.text() is Some,
    {
        DTGCommon::blank_at(Timestamp::now())
    }
}

impl DTGCommon {
    /// The envelope of a credential that has nothing of its own yet, valid
    /// from `instant` on: the two contexts and the two tags that every DTG
    /// credential has, no issuer, an open validity window, a basic subject
    /// without identifier, and no proof.
    pub fn blank_at(instant: Timestamp) -> (envelope: DTGCommon)
        ensures
            envelope@.blank(),
            envelope@.valid_from == instant,
    {
        DTGCommon {
            context: default_context(),
            type_: default_type(),
            issuer: String::new(),
            valid_from: instant,
            valid_until: None,
            credential_subject: CredentialSubject::Basic(
                CredentialSubjectBasic { id: String::new() },
            ),
            proof: None,
        }
    }

    /// Has this credential been signed? True where a proof exists; the proof
    /// itself is not looked at.
    pub fn signed(&self) -> (signed: bool)
        ensures
            signed == self@.signed(),
    {
        self.proof.is_some()
    }

    /// Returns the issuer DID.
    pub fn issuer(&self) -> (issuer: &str)
        ensures
            issuer@ == self@.issuer,
    {
        self.issuer.as_str()
    }

    /// Returns the subject DID.
    pub fn subject(&self) -> (subject: &str)
        ensures
            subject@ == self@.subject.id(),
    {
        self.credential_subject.id()
    }

    /// The credential is valid from this timestamp.
    pub fn valid_from(&self) -> (instant: Timestamp)
        ensures
            instant == self@.valid_from,
    {
        self.valid_from
    }

    /// The credential is valid until this timestamp, if set.
    pub fn valid_until(&self) -> (instant: Option<Timestamp>)
        ensures
            instant == self@.valid_until,
    {
        self.valid_until
    }

    /// Reads an envelope from a document, and resolves its subject.
    pub fn from_document(document: &Json) -> (read: Result<DTGCommon, DTGCredentialError>)
        ensures
            match read {
                Ok(envelope) => EnvelopeModel::read(document@) == Ok::<
                    EnvelopeModel,
                    Option<DTGCredentialError>,
                >(envelope@),
                Err(error) => match EnvelopeModel::read(document@) {
                    Ok(_) => false,
                    Err(Some(refusal)) => error == refusal,
                    Err(None) => error is MalformedDocument,
                },
            },
    {
        let members = read_members(document)?;
        let credential_subject = CredentialSubject::from_payload(members.payload)?;
        Ok(
            DTGCommon {
                context: members.context,
                type_: members.type_,
                issuer: members.issuer,
                valid_from: members.valid_from,
                valid_until: members.valid_until,
                credential_subject,
                proof: members.proof,
            },
        )
    }

    /// Writes the envelope as a document, with its proof or without it.
    fn write(&self, with_proof: bool) -> (written: Result<Json, DTGCredentialError>)
        ensures
            match written {
                Ok(document) => (if with_proof {
                    self@
                } else {
                    self@.unsigned()
                }).document() == Some(document@),
                Err(error) => (if with_proof {
                    self@
                } else {
                    self@.unsigned()
                }).document() is None && error is MalformedDocument,
            },
    {
        let ghost model = if with_proof {
            self@
        } else {
            self@.unsigned()
        };
        let version = match FormatVersion::detect(self.context.as_slice()) {
            Ok(version) => version,
            Err(_) => FormatVersion::V2,
        };
        assert(version == model.window_version());
        let from = match self.valid_from.to_rfc3339() {
            Some(from) => from,
            None => {
                return Err(malformed("the beginning of the validity window has no date"));
            },
        };
        let mut members: Vec<(String, Json)> = Vec::new();
        members.push((String::from_str(CONTEXT), tree_from_texts(&self.context)));
        members.push((String::from_str(TYPE), tree_from_texts(&self.type_)));
        members.push((String::from_str(ISSUER), Json::Text(self.issuer.clone())));
        members.push((String::from_str(version.valid_from_str()), Json::Text(from)));
        match self.valid_until {
            Some(until) => match until.to_rfc3339() {
                Some(until) => {
                    members.push((String::from_str(version.valid_until_str()), Json::Text(until)));
                },
                None => {
                    return Err(malformed("the end of the validity window has no date"));
                },
            },
            None => {},
        }
        members.push((String::from_str(CREDENTIAL_SUBJECT), self.credential_subject.to_payload()));
        let carried = &self.proof;
        if with_proof && carried.is_some() {
            match tree_from_proof(carried.as_ref().unwrap()) {
                Some(tree) => {
                    members.push((String::from_str(PROOF), tree));
                },
                None => {
                    return Err(malformed("the proof cannot be written"));
                },
            }
        }
        proof {
            lemma_members_view(members);
            assert(members_view(members) =~= model.document()->Some_0->Record_0);
        }
        Ok(Json::Record(members))
    }

    /// Writes the envelope as a document.
    pub fn to_document(&self) -> (written: Result<Json, DTGCredentialError>)
        ensures
            match written {
                Ok(document) => self@.document() == Some(document@),
                Err(error) => self@.document() is None && error is MalformedDocument,
            },
    {
        self.write(true)
    }

    /// Writes the envelope without its proof as a document: what a proof is
    /// made of, and what it is checked against.
    pub fn to_unsigned_document(&self) -> (written: Result<Json, DTGCredentialError>)
        ensures
            match written {
                Ok(document) => self@.unsigned().document() == Some(document@),
                Err(error) => self@.unsigned().document() is None && error is MalformedDocument,
            },
    {
        self.write(false)
    }
}

} // verus!
