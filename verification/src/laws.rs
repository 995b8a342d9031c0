//! What holds of resolution, of reading and of writing, for every input.

use crate::credential::{lemma_built_resolves, CredentialModel};
use crate::envelope::{
    find_either, instant_of, list_of_texts, text_list, EnvelopeModel, MembersModel, CONTEXT,
    CREDENTIAL_SUBJECT, EXPIRATION_DATE, ISSUANCE_DATE, ISSUER, PROOF, TYPE, VALID_FROM,
    VALID_UNTIL,
};
use crate::error::DTGCredentialError;
use crate::json::{
    distinct_names, find, lemma_find_distinct, named_at, named_within, Found, JsonTree,
};
use crate::kind::DTGCredentialType;
use crate::order::{
    arrange, ascending, lemma_arrange, lemma_ordered_is_sorted, lemma_sorted_is_ordered,
    lemma_sorted_parts, lemma_sorted_twice,
};
use crate::subject::{
    lemma_member_names, SubjectModel, CARD, DIGEST, ENDORSEMENT, ID, WITNESS_CONTEXT,
};
use crate::timestamp::Timestamp;
use crate::version::FormatVersion;
use vstd::prelude::*;

verus! {

impl SubjectModel {
    /// What a subject is read back as from its own payload: itself with what
    /// it holds sorted, but for a witness, which without digest and without
    /// context has the payload of a basic subject, and whose null context is
    /// read as no context.
    pub open spec fn read_back(self) -> SubjectModel {
        match self {
            SubjectModel::Basic { id } => self,
            SubjectModel::Endorsement { id, endorsement } => SubjectModel::Endorsement {
                id,
                endorsement: endorsement.sorted(),
            },
            SubjectModel::RCard { id, card } => SubjectModel::RCard { id, card: card.sorted() },
            SubjectModel::Witness { id, digest, witness_context } => {
                if digest is None && witness_context is None {
                    SubjectModel::Basic { id }
                } else {
                    SubjectModel::Witness {
                        id,
                        digest,
                        witness_context: Self::context_read(witness_context),
                    }
                }
            },
        }
    }

    /// What the member that holds the context of a witness is read as: the
    /// value sorted, or no context where the value is null or missing.
    pub open spec fn context_read(member: Option<JsonTree>) -> Option<JsonTree> {
        match member {
            Some(context) => if context is Null {
                None
            } else {
                Some(context.sorted())
            },
            None => None,
        }
    }
}

/// What the search for each name finds among the members of a payload whose
/// names are distinct.
proof fn lemma_payload_members(members: Seq<(Seq<char>, JsonTree)>)
    requires
        distinct_names(members),
    ensures
        forall|name: Seq<char>, at: int|
            named_at(members, name, at) ==> #[trigger] find(members, name) == Found::Once(
                (#[trigger] members[at]).1,
            ),
        forall|name: Seq<char>|
            (forall|at: int| 0 <= at < members.len() ==> (#[trigger] members[at]).0 != name)
                ==> #[trigger] find(members, name) is Absent,
{
    assert forall|name: Seq<char>, at: int| named_at(members, name, at) implies #[trigger] find(
        members,
        name,
    ) == Found::Once((#[trigger] members[at]).1) by {
        lemma_find_distinct(members, name);
    }
}

/// The payload of a basic subject resolves to the subject.
proof fn lemma_basic_payload(id: Seq<char>)
    ensures
        SubjectModel::resolve((SubjectModel::Basic { id }).payload()) == Ok::<
            SubjectModel,
            DTGCredentialError,
        >(SubjectModel::Basic { id }),
{
    lemma_member_names();
    let members = seq![(ID@, JsonTree::Text(id))];
    assert((SubjectModel::Basic { id }).payload() == JsonTree::Record(members));
    assert(distinct_names(members));
    lemma_payload_members(members);
    assert(named_at(members, ID@, 0));
    assert(find(members, ID@) == Found::Once(members[0].1));
    assert(find(members, ENDORSEMENT@) is Absent);
    assert(find(members, CARD@) is Absent);
    assert(find(members, DIGEST@) is Absent);
    assert(find(members, WITNESS_CONTEXT@) is Absent);
    assert(seq![ID@][0] == ID@);
    assert(named_within(members, seq![ID@]));
    assert(SubjectModel::fits_basic(members));
}

/// Members `id` and `endorsement` resolve to an endorsement, which holds the
/// value sorted.
proof fn lemma_endorsement_members(id: Seq<char>, value: JsonTree)
    ensures
        SubjectModel::resolve(
            JsonTree::Record(seq![(ID@, JsonTree::Text(id)), (ENDORSEMENT@, value)]),
        ) == Ok::<SubjectModel, DTGCredentialError>(
            SubjectModel::Endorsement { id, endorsement: value.sorted() },
        ),
{
    lemma_member_names();
    let members = seq![(ID@, JsonTree::Text(id)), (ENDORSEMENT@, value)];
    assert(distinct_names(members));
    lemma_payload_members(members);
    assert(named_at(members, ID@, 0));
    assert(named_at(members, ENDORSEMENT@, 1));
    assert(find(members, ID@) == Found::Once(members[0].1));
    assert(find(members, ENDORSEMENT@) == Found::Once(members[1].1));
    let names = seq![ID@, ENDORSEMENT@];
    assert(names[0] == ID@ && names[1] == ENDORSEMENT@);
    assert(named_within(members, names));
    assert(SubjectModel::fits_endorsement(members));
}

/// Members `id` and `card` resolve to a card, which holds the value sorted.
proof fn lemma_rcard_members(id: Seq<char>, value: JsonTree)
    ensures
        SubjectModel::resolve(JsonTree::Record(seq![(ID@, JsonTree::Text(id)), (CARD@, value)]))
            == Ok::<SubjectModel, DTGCredentialError>(
            SubjectModel::RCard { id, card: value.sorted() },
        ),
{
    lemma_member_names();
    let members = seq![(ID@, JsonTree::Text(id)), (CARD@, value)];
    assert(distinct_names(members));
    lemma_payload_members(members);
    assert(named_at(members, ID@, 0));
    assert(named_at(members, CARD@, 1));
    assert(find(members, ID@) == Found::Once(members[0].1));
    assert(find(members, CARD@) == Found::Once(members[1].1));
    assert(find(members, ENDORSEMENT@) is Absent);
    let names = seq![ID@, CARD@];
    assert(names[0] == ID@ && names[1] == CARD@);
    assert(named_within(members, names));
    assert(SubjectModel::fits_rcard(members));
}

/// Members `id`, with `digest` or `witnessContext` or both, resolve to a
/// witness, which holds the context sorted; `id` alone is a basic subject.
proof fn lemma_witness_members(id: Seq<char>, digest: Option<Seq<char>>, value: Option<JsonTree>)
    ensures
        SubjectModel::resolve(
            JsonTree::Record(
                seq![(ID@, JsonTree::Text(id))] + (match digest {
                    Some(given) => seq![(DIGEST@, JsonTree::Text(given))],
                    None => seq![],
                }) + (match value {
                    Some(context) => seq![(WITNESS_CONTEXT@, context)],
                    None => seq![],
                }),
            ),
        ) == Ok::<SubjectModel, DTGCredentialError>(
            if digest is None && value is None {
                SubjectModel::Basic { id }
            } else {
                SubjectModel::Witness {
                    id,
                    digest,
                    witness_context: SubjectModel::context_read(value),
                }
            },
        ),
{
    lemma_member_names();
    let members = seq![(ID@, JsonTree::Text(id))] + (match digest {
        Some(given) => seq![(DIGEST@, JsonTree::Text(given))],
        None => seq![],
    }) + (match value {
        Some(context) => seq![(WITNESS_CONTEXT@, context)],
        None => seq![],
    });
    let names = seq![ID@, DIGEST@, WITNESS_CONTEXT@];
    assert(names[0] == ID@ && names[1] == DIGEST@ && names[2] == WITNESS_CONTEXT@);
    assert(members[0] == (ID@, JsonTree::Text(id)));
    match (digest, value) {
        (Some(given), Some(context)) => {
            assert(members.len() == 3);
            assert(members[1] == (DIGEST@, JsonTree::Text(given)));
            assert(members[2] == (WITNESS_CONTEXT@, context));
            assert(distinct_names(members));
            lemma_payload_members(members);
            assert(named_at(members, ID@, 0));
            assert(named_at(members, DIGEST@, 1));
            assert(named_at(members, WITNESS_CONTEXT@, 2));
        },
        (Some(given), None) => {
            assert(members.len() == 2);
            assert(members[1] == (DIGEST@, JsonTree::Text(given)));
            assert(distinct_names(members));
            lemma_payload_members(members);
            assert(named_at(members, ID@, 0));
            assert(named_at(members, DIGEST@, 1));
            assert(find(members, WITNESS_CONTEXT@) is Absent);
        },
        (None, Some(context)) => {
            assert(members.len() == 2);
            assert(members[1] == (WITNESS_CONTEXT@, context));
            assert(distinct_names(members));
            lemma_payload_members(members);
            assert(named_at(members, ID@, 0));
            assert(named_at(members, WITNESS_CONTEXT@, 1));
            assert(find(members, DIGEST@) is Absent);
        },
        (None, None) => {
            assert(members =~= seq![(ID@, JsonTree::Text(id))]);
            lemma_basic_payload(id);
        },
    }
    if members.len() > 1 {
        assert(find(members, ID@) == Found::Once(members[0].1));
        assert(find(members, ENDORSEMENT@) is Absent);
        assert(find(members, CARD@) is Absent);
        assert(named_within(members, names));
        assert(SubjectModel::fits_witness(members));
    }
}

/// The payload of a subject resolves to the subject as it is read back.
pub proof fn lemma_payload_resolves(subject: SubjectModel)
    ensures
        SubjectModel::resolve(subject.payload()) == Ok::<SubjectModel, DTGCredentialError>(
            subject.read_back(),
        ),
{
    match subject {
        SubjectModel::Basic { id } => lemma_basic_payload(id),
        SubjectModel::Endorsement { id, endorsement } => {
            lemma_endorsement_members(id, endorsement.sorted());
            lemma_sorted_twice(endorsement);
        },
        SubjectModel::RCard { id, card } => {
            lemma_rcard_members(id, card.sorted());
            lemma_sorted_twice(card);
        },
        SubjectModel::Witness { id, digest, witness_context } => {
            let written = match witness_context {
                Some(context) => Some(context.sorted()),
                None => None,
            };
            lemma_witness_members(id, digest, written);
            assert(subject.payload() == JsonTree::Record(
                seq![(ID@, JsonTree::Text(id))] + (match digest {
                    Some(given) => seq![(DIGEST@, JsonTree::Text(given))],
                    None => seq![],
                }) + (match written {
                    Some(context) => seq![(WITNESS_CONTEXT@, context)],
                    None => seq![],
                }),
            )) by {
                assert(subject.payload()->Record_0 =~= seq![(ID@, JsonTree::Text(id))] + (
                match digest {
                    Some(given) => seq![(DIGEST@, JsonTree::Text(given))],
                    None => seq![],
                }) + (match written {
                    Some(context) => seq![(WITNESS_CONTEXT@, context)],
                    None => seq![],
                }));
            }
            match witness_context {
                Some(context) => {
                    lemma_sorted_twice(context);
                    lemma_sorted_parts(Seq::empty(), Seq::empty());
                },
                None => {},
            }
        },
    }
}

/// A subject that holds what it holds in order is read back from its own
/// payload as itself, but for the witness without digest and context, and the
/// witness with a null context.
pub proof fn lemma_ordered_read_back(subject: SubjectModel)
    requires
        subject.ordered(),
    ensures
        subject is Endorsement || subject is RCard || subject is Basic ==> subject.read_back()
            == subject,
        subject matches SubjectModel::Witness { digest, witness_context, .. } ==> (digest is Some
            || witness_context is Some) && witness_context != Some(JsonTree::Null)
            ==> subject.read_back() == subject,
{
    match subject {
        SubjectModel::Endorsement { endorsement, .. } => lemma_ordered_is_sorted(endorsement),
        SubjectModel::RCard { card, .. } => lemma_ordered_is_sorted(card),
        SubjectModel::Witness { witness_context, .. } => match witness_context {
            Some(context) => lemma_ordered_is_sorted(context),
            None => {},
        },
        _ => {},
    }
}

/// A list of texts, written as a tree, is read back as the list.
pub proof fn lemma_text_list(texts: Seq<Seq<char>>)
    ensures
        text_list(list_of_texts(texts)) == Some(texts),
{
    let items = list_of_texts(texts)->List_0;
    assert forall|at: int| 0 <= at < items.len() implies (#[trigger] items[at]) is Text by {}
    assert(Seq::new(items.len(), |at: int| items[at]->Text_0) =~= texts);
}

/// The names of the members of an envelope are nine different names.
pub proof fn lemma_envelope_names()
    ensures
        CONTEXT@.len() == 8,
        TYPE@.len() == 4,
        ISSUER@.len() == 6,
        VALID_FROM@.len() == 9,
        VALID_UNTIL@.len() == 10,
        ISSUANCE_DATE@.len() == 12,
        EXPIRATION_DATE@.len() == 14,
        CREDENTIAL_SUBJECT@.len() == 17,
        PROOF@.len() == 5,
        FormatVersion::V1.valid_from_name() == ISSUANCE_DATE@,
        FormatVersion::V2.valid_from_name() == VALID_FROM@,
        FormatVersion::V1.valid_until_name() == EXPIRATION_DATE@,
        FormatVersion::V2.valid_until_name() == VALID_UNTIL@,
{
    reveal_strlit("@context");
    reveal_strlit("type");
    reveal_strlit("issuer");
    reveal_strlit("validFrom");
    reveal_strlit("validUntil");
    reveal_strlit("issuanceDate");
    reveal_strlit("expirationDate");
    reveal_strlit("credentialSubject");
    reveal_strlit("proof");
    assert(CONTEXT@ == "@context"@);
    assert(TYPE@ == "type"@);
    assert(ISSUER@ == "issuer"@);
    assert(VALID_FROM@ == "validFrom"@);
    assert(VALID_UNTIL@ == "validUntil"@);
    assert(ISSUANCE_DATE@ == "issuanceDate"@);
    assert(EXPIRATION_DATE@ == "expirationDate"@);
    assert(CREDENTIAL_SUBJECT@ == "credentialSubject"@);
    assert(PROOF@ == "proof"@);
}

/// What is read from the document of an envelope that has no proof, and
/// whose instants are kept by their text: the parts of the envelope, and the
/// payload of its subject.
pub proof fn lemma_document_members(envelope: EnvelopeModel)
    requires
        envelope.proof is None,
        envelope.valid_from.survives_text(),
        envelope.valid_until matches Some(until) ==> until.survives_text(),
    ensures
        envelope.document() is Some,
        MembersModel::read(envelope.document()->Some_0) == Some(
            MembersModel {
                context: envelope.context,
                type_: envelope.type_,
                issuer: envelope.issuer,
                valid_from: envelope.valid_from,
                valid_until: envelope.valid_until,
                payload: envelope.subject.payload(),
                proof: None,
            },
        ),
{
    lemma_envelope_names();
    lemma_text_list(envelope.context);
    lemma_text_list(envelope.type_);
    let version = envelope.window_version();
    let from = envelope.valid_from.text()->Some_0;
    let members = envelope.document()->Some_0->Record_0;
    assert(members[0] == (CONTEXT@, list_of_texts(envelope.context)));
    assert(members[1] == (TYPE@, list_of_texts(envelope.type_)));
    assert(members[2] == (ISSUER@, JsonTree::Text(envelope.issuer)));
    assert(members[3] == (version.valid_from_name(), JsonTree::Text(from)));
    match envelope.valid_until {
        Some(until) => {
            let text = until.text()->Some_0;
            assert(members.len() == 6);
            assert(members[4] == (version.valid_until_name(), JsonTree::Text(text)));
            assert(members[5] == (CREDENTIAL_SUBJECT@, envelope.subject.payload()));
            assert(distinct_names(members));
            lemma_payload_members(members);
            assert(named_at(members, version.valid_until_name(), 4));
            assert(named_at(members, CREDENTIAL_SUBJECT@, 5));
            assert(MembersModel::read_until(members) == Some(envelope.valid_until));
        },
        None => {
            assert(members.len() == 5);
            assert(members[4] == (CREDENTIAL_SUBJECT@, envelope.subject.payload()));
            assert(distinct_names(members));
            lemma_payload_members(members);
            assert(named_at(members, CREDENTIAL_SUBJECT@, 4));
            assert(find(members, VALID_UNTIL@) is Absent);
            assert(find(members, EXPIRATION_DATE@) is Absent);
            assert(MembersModel::read_until(members) == Some(envelope.valid_until));
        },
    }
    assert(named_at(members, CONTEXT@, 0));
    assert(named_at(members, TYPE@, 1));
    assert(named_at(members, ISSUER@, 2));
    assert(named_at(members, version.valid_from_name(), 3));
    assert(find(members, PROOF@) is Absent);
    assert(find_either(members, VALID_FROM@, ISSUANCE_DATE@) == Found::Once(JsonTree::Text(from)));
    assert(instant_of(JsonTree::Text(from)) == Some(envelope.valid_from));
}

/// Round trip. A credential that is what its own envelope resolves to, and
/// that carries no proof, is read from its own document as itself, where the
/// document keeps what the credential holds: each instant is kept by its
/// text, the context of a witness is not the null value, and what the subject
/// holds is in order.
pub proof fn law_round_trip(credential: CredentialModel)
    requires
        credential.resolved(),
        credential.kept_by_document(),
    ensures
        credential.envelope.document() is Some,
        CredentialModel::read(credential.envelope.document()->Some_0) == Ok::<
            CredentialModel,
            Option<DTGCredentialError>,
        >(credential),
{
    lemma_document_members(credential.envelope);
    lemma_payload_resolves(credential.envelope.subject);
    lemma_ordered_read_back(credential.envelope.subject);
}

/// Round trip of what the constructors make: a credential that a constructor
/// has made is read from its own document as itself, where each instant is
/// kept by its text and the context of a witness is not the null value. What
/// the subject holds is in order there, since the constructors sort it.
pub proof fn law_built_round_trip(
    issuer: Seq<char>,
    valid_from: Timestamp,
    valid_until: Option<Timestamp>,
    subject: SubjectModel,
    kind: DTGCredentialType,
    marked: bool,
)
    requires
        subject.shape() == kind.shape(),
        marked ==> kind == DTGCredentialType::Membership,
        CredentialModel::built(
            issuer,
            valid_from,
            valid_until,
            subject,
            kind,
            marked,
        ).kept_by_document(),
    ensures
        ({
            let credential = CredentialModel::built(
                issuer,
                valid_from,
                valid_until,
                subject,
                kind,
                marked,
            );
            &&& credential.envelope.document() is Some
            &&& CredentialModel::read(credential.envelope.document()->Some_0) == Ok::<
                CredentialModel,
                Option<DTGCredentialError>,
            >(credential)
        }),
{
    lemma_built_resolves(issuer, valid_from, valid_until, subject, kind, marked);
    law_round_trip(CredentialModel::built(issuer, valid_from, valid_until, subject, kind, marked));
}

/// Idempotent resolution. What an envelope resolves to, its own envelope
/// resolves to again: the second resolution does not fail, and gives the same
/// kind, the same version and the same subject.
pub proof fn law_resolution_is_idempotent(envelope: EnvelopeModel)
    ensures
        match CredentialModel::resolve(envelope) {
            Ok(credential) => CredentialModel::resolve(credential.envelope) == Ok::<
                CredentialModel,
                DTGCredentialError,
            >(credential),
            Err(_) => true,
        },
{
}

/// Ordered dispatch. A payload of an `id` and a `card` resolves to a card,
/// whichever of the two stands first; the card is held sorted.
pub proof fn law_card_resolves_to_card(id: Seq<char>, card: JsonTree)
    ensures
        SubjectModel::resolve(JsonTree::Record(seq![(ID@, JsonTree::Text(id)), (CARD@, card)]))
            == Ok::<SubjectModel, DTGCredentialError>(
            SubjectModel::RCard { id, card: card.sorted() },
        ),
        SubjectModel::resolve(JsonTree::Record(seq![(CARD@, card), (ID@, JsonTree::Text(id))]))
            == Ok::<SubjectModel, DTGCredentialError>(
            SubjectModel::RCard { id, card: card.sorted() },
        ),
{
    lemma_rcard_members(id, card);
    lemma_member_names();
    let members = seq![(CARD@, card), (ID@, JsonTree::Text(id))];
    assert(distinct_names(members));
    lemma_payload_members(members);
    assert(named_at(members, CARD@, 0));
    assert(named_at(members, ID@, 1));
    assert(find(members, ENDORSEMENT@) is Absent);
    let names = seq![ID@, CARD@];
    assert(names[0] == ID@ && names[1] == CARD@);
    assert(named_within(members, names));
    assert(SubjectModel::fits_rcard(members));
}

/// Ordered dispatch, the other way: a payload that has a member `card`, at
/// whatever place, resolves to a card or is refused; it is never taken for a
/// subject of another shape.
pub proof fn law_card_is_no_other_shape(members: Seq<(Seq<char>, JsonTree)>, at: int)
    requires
        named_at(members, CARD@, at),
    ensures
        match SubjectModel::resolve(JsonTree::Record(members)) {
            Ok(subject) => subject is RCard,
            Err(error) => error == DTGCredentialError::MalformedSubject,
        },
{
    lemma_member_names();
    let held = members[at].0;
    assert(!seq![ID@, ENDORSEMENT@].contains(held));
    assert(!seq![ID@, DIGEST@, WITNESS_CONTEXT@].contains(held));
    assert(!seq![ID@].contains(held));
}

/// Strict rejection. A payload resolves to a subject only where each of its
/// members has a name that the shape of that subject defines; a payload with
/// any other member is refused.
pub proof fn law_strict_rejection(payload: JsonTree)
    ensures
        match SubjectModel::resolve(payload) {
            Ok(subject) => payload is Record && named_within(payload->Record_0, subject.names()),
            Err(error) => error == DTGCredentialError::MalformedSubject,
        },
{
}

/// Strict rejection, said of one member: a payload with a member that no
/// shape defines is refused.
pub proof fn law_unknown_member_is_refused(members: Seq<(Seq<char>, JsonTree)>, at: int)
    requires
        0 <= at < members.len(),
        members[at].0 != ID@,
        members[at].0 != ENDORSEMENT@,
        members[at].0 != CARD@,
        members[at].0 != DIGEST@,
        members[at].0 != WITNESS_CONTEXT@,
    ensures
        SubjectModel::resolve(JsonTree::Record(members)) == Err::<
            SubjectModel,
            DTGCredentialError,
        >(DTGCredentialError::MalformedSubject),
{
    let held = members[at].0;
    assert(!seq![ID@, ENDORSEMENT@].contains(held));
    assert(!seq![ID@, CARD@].contains(held));
    assert(!seq![ID@, DIGEST@, WITNESS_CONTEXT@].contains(held));
    assert(!seq![ID@].contains(held));
}

/// Witness leniency. An envelope that declares a witness, in a known version
/// of the format, with a subject of `id` alone, resolves to a witness without
/// digest and without context.
pub proof fn law_witness_leniency(envelope: EnvelopeModel, id: Seq<char>)
    requires
        DTGCredentialType::resolve(envelope.type_) == Some(DTGCredentialType::Witness),
        FormatVersion::detected(envelope.context) is Some,
        envelope.subject == (SubjectModel::Basic { id }),
    ensures
        CredentialModel::resolve(envelope) == Ok::<CredentialModel, DTGCredentialError>(
            CredentialModel {
                envelope: EnvelopeModel {
                    subject: SubjectModel::Witness { id, digest: None, witness_context: None },
                    ..envelope
                },
                kind: DTGCredentialType::Witness,
                version: FormatVersion::detected(envelope.context)->Some_0,
            },
        ),
{
}

/// Witness leniency, from the payload: a payload of `id` alone is a basic
/// subject, which a witness takes.
pub proof fn law_bare_payload_is_basic(id: Seq<char>)
    ensures
        SubjectModel::resolve(JsonTree::Record(seq![(ID@, JsonTree::Text(id))])) == Ok::<
            SubjectModel,
            DTGCredentialError,
        >(SubjectModel::Basic { id }),
        CredentialModel::settle(DTGCredentialType::Witness, SubjectModel::Basic { id }) == Some(
            SubjectModel::Witness { id, digest: None, witness_context: None },
        ),
{
    lemma_basic_payload(id);
}

/// Mismatch of kind and subject. An envelope that declares a kind, in a known
/// version of the format, with a subject of another shape than the kind's is
/// refused as an unknown credential, but for the witness with a basic subject.
pub proof fn law_mismatch_is_refused(envelope: EnvelopeModel, kind: DTGCredentialType)
    requires
        DTGCredentialType::resolve(envelope.type_) == Some(kind),
        FormatVersion::detected(envelope.context) is Some,
        envelope.subject.shape() != kind.shape(),
        !(kind == DTGCredentialType::Witness && envelope.subject is Basic),
    ensures
        CredentialModel::resolve(envelope) == Err::<CredentialModel, DTGCredentialError>(
            DTGCredentialError::UnknownCredential,
        ),
{
}

/// Version detection. An envelope whose context holds the link of the legacy
/// version is of the legacy version; one whose context holds the link of the
/// current version, and not that of the legacy one, is of the current
/// version; one whose context holds neither is refused for its version, where
/// it declares a kind.
pub proof fn law_version_detection(envelope: EnvelopeModel)
    ensures
        envelope.context.contains(FormatVersion::V1.context()) ==> FormatVersion::detected(
            envelope.context,
        ) == Some(FormatVersion::V1),
        !envelope.context.contains(FormatVersion::V1.context()) && envelope.context.contains(
            FormatVersion::V2.context(),
        ) ==> FormatVersion::detected(envelope.context) == Some(FormatVersion::V2),
        !envelope.context.contains(FormatVersion::V1.context()) && !envelope.context.contains(
            FormatVersion::V2.context(),
        ) && DTGCredentialType::resolve(envelope.type_) is Some ==> CredentialModel::resolve(
            envelope,
        ) == Err::<CredentialModel, DTGCredentialError>(DTGCredentialError::UnknownFormatVersion),
        CredentialModel::resolve(envelope) matches Ok(credential) ==> FormatVersion::detected(
            envelope.context,
        ) == Some(credential.version),
{
}

/// The signed state of what the constructors make: a credential that a
/// constructor has made carries no proof.
pub proof fn law_built_is_unsigned(
    issuer: Seq<char>,
    valid_from: Timestamp,
    valid_until: Option<Timestamp>,
    subject: SubjectModel,
    kind: DTGCredentialType,
    marked: bool,
)
    ensures
        !CredentialModel::built(
            issuer,
            valid_from,
            valid_until,
            subject,
            kind,
            marked,
        ).envelope.signed(),
{
}

/// What the constructors hold is in order: a subject that holds a sorted
/// endorsement, a sorted card or a sorted context is in order, whatever was
/// sorted.
pub proof fn law_sorted_subject_is_in_order(
    id: Seq<char>,
    digest: Option<Seq<char>>,
    value: JsonTree,
)
    ensures
        (SubjectModel::Endorsement { id, endorsement: value.sorted() }).ordered(),
        (SubjectModel::RCard { id, card: value.sorted() }).ordered(),
        (SubjectModel::Witness { id, digest, witness_context: Some(value.sorted()) }).ordered(),
        (SubjectModel::Witness { id, digest, witness_context: None }).ordered(),
        (SubjectModel::Basic { id }).ordered(),
{
    lemma_sorted_is_ordered(value);
}

/// Sorting keeps the members of a record, each as often as it was, and leaves
/// their names ascending; sorting what is sorted changes nothing.
pub proof fn law_sorting(members: Seq<(Seq<char>, JsonTree)>, tree: JsonTree)
    ensures
        arrange(members).to_multiset() == members.to_multiset(),
        ascending(arrange(members)),
        tree.sorted().ordered(),
        tree.sorted().sorted() == tree.sorted(),
        tree.ordered() ==> tree.sorted() == tree,
{
    lemma_arrange(members);
    lemma_sorted_is_ordered(tree);
    lemma_sorted_twice(tree);
    if tree.ordered() {
        lemma_ordered_is_sorted(tree);
    }
}

} // verus!
