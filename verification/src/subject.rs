//! The subject of a credential: its four shapes, and the resolution of a raw
//! payload to the shape that it has.

use crate::error::DTGCredentialError;
use crate::kind::SubjectShape;
use crate::json::{
    distinct_names, find, lemma_distinct_names, lemma_find_distinct, lemma_members_view, locate,
    members_view, named_within, names_within, Found, Json, JsonTree, Slot,
};
use vstd::prelude::*;
use vstd::string::StringExecFns;

verus! {

/// The name of the member that identifies the subject.
pub const ID: &'static str = "id";

/// The name of the member that holds an endorsement.
pub const ENDORSEMENT: &'static str = "endorsement";

/// The name of the member that holds a card.
pub const CARD: &'static str = "card";

/// The name of the member that holds a witness's digest.
pub const DIGEST: &'static str = "digest";

/// The name of the member that holds a witness's context.
pub const WITNESS_CONTEXT: &'static str = "witnessContext";

/// Id of the credential subject only.
#[derive(Debug, Clone, PartialEq, Eq)]
pub struct CredentialSubjectBasic {
    pub id: String,
}

/// Endorsement credential subject.
#[derive(Debug, Clone, PartialEq, Eq)]
pub struct CredentialSubjectEndorsement {
    pub id: String,
    /// The endorsement has no form of its own: any JSON value.
    pub endorsement: Json,
}

/// Witness credential subject.
#[derive(Debug, Clone, PartialEq, Eq)]
pub struct CredentialSubjectWitness {
    pub id: String,
    pub digest: Option<String>,
    /// The context has no form of its own: any JSON value.
    pub witness_context: Option<Json>,
}

/// R-Card credential subject.
#[derive(Debug, Clone, PartialEq, Eq)]
pub struct CredentialSubjectRCard {
    pub id: String,
    /// A card after the jCard format: any JSON value.
    pub card: Json,
}

/// All possible credential subjects.
#[derive(Debug, PartialEq, Eq)]
pub enum CredentialSubject {
    /// Verifiable endorsement credential subject.
    Endorsement(CredentialSubjectEndorsement),
    /// R-Card credential subject.
    RCard(CredentialSubjectRCard),
    /// Credential subject of just `id`.
    Basic(CredentialSubjectBasic),
    /// Verifiable witness credential subject.
    Witness(CredentialSubjectWitness),
}

/// The mathematical model of a credential subject.
pub enum SubjectModel {
    Basic { id: Seq<char> },
    Endorsement { id: Seq<char>, endorsement: JsonTree },
    Witness { id: Seq<char>, digest: Option<Seq<char>>, witness_context: Option<JsonTree> },
    RCard { id: Seq<char>, card: JsonTree },
}

impl View for CredentialSubject {
    type V = SubjectModel;

    open spec fn view(&self) -> SubjectModel {
        match self {
            CredentialSubject::Basic(subject) => SubjectModel::Basic { id: subject.id@ },
            CredentialSubject::Endorsement(subject) => SubjectModel::Endorsement {
                id: subject.id@,
                endorsement: subject.endorsement@,
            },
            CredentialSubject::Witness(subject) => SubjectModel::Witness {
                id: subject.id@,
                digest: match subject.digest {
                    Some(digest) => Some(digest@),
                    None => None,
                },
                witness_context: match subject.witness_context {
                    Some(context) => Some(context@),
                    None => None,
                },
            },
            CredentialSubject::RCard(subject) => SubjectModel::RCard {
                id: subject.id@,
                card: subject.card@,
            },
        }
    }
}

impl Clone for CredentialSubject {
    /// A copy of this subject: the same model.
    fn clone(&self) -> (copy: CredentialSubject)
        ensures
            copy@ == self@,
    {
        match self {
            CredentialSubject::Basic(subject) => CredentialSubject::Basic(
                CredentialSubjectBasic { id: subject.id.clone() },
            ),
            CredentialSubject::Endorsement(subject) => CredentialSubject::Endorsement(
                CredentialSubjectEndorsement {
                    id: subject.id.clone(),
                    endorsement: subject.endorsement.clone(),
                },
            ),
            CredentialSubject::Witness(subject) => CredentialSubject::Witness(
                CredentialSubjectWitness {
                    id: subject.id.clone(),
                    digest: match &subject.digest {
                        Some(digest) => Some(digest.clone()),
                        None => None,
                    },
                    witness_context: match &subject.witness_context {
                        Some(context) => Some(context.clone()),
                        None => None,
                    },
                },
            ),
            CredentialSubject::RCard(subject) => CredentialSubject::RCard(
                CredentialSubjectRCard { id: subject.id.clone(), card: subject.card.clone() },
            ),
        }
    }
}

/// The member names of the four shapes are five different names.
pub proof fn lemma_member_names()
    ensures
        ID@.len() == 2,
        ENDORSEMENT@.len() == 11,
        CARD@.len() == 4,
        DIGEST@.len() == 6,
        WITNESS_CONTEXT@.len() == 14,
{
    reveal_strlit("id");
    reveal_strlit("endorsement");
    reveal_strlit("card");
    reveal_strlit("digest");
    reveal_strlit("witnessContext");
    assert(ID@ == "id"@);
    assert(ENDORSEMENT@ == "endorsement"@);
    assert(CARD@ == "card"@);
    assert(DIGEST@ == "digest"@);
    assert(WITNESS_CONTEXT@ == "witnessContext"@);
}

impl SubjectModel {
    /// The identifier of the subject.
    pub open spec fn id(self) -> Seq<char> {
        match self {
            SubjectModel::Basic { id } => id,
            SubjectModel::Endorsement { id, .. } => id,
            SubjectModel::Witness { id, .. } => id,
            SubjectModel::RCard { id, .. } => id,
        }
    }

    /// The shape of this subject.
    pub open spec fn shape(self) -> SubjectShape {
        match self {
            SubjectModel::Basic { .. } => SubjectShape::Basic,
            SubjectModel::Endorsement { .. } => SubjectShape::Endorsement,
            SubjectModel::Witness { .. } => SubjectShape::Witness,
            SubjectModel::RCard { .. } => SubjectShape::RCard,
        }
    }

    /// Whether the endorsement, the card or the context of a witness that
    /// this subject holds is in order: the names of the members of every
    /// record in it ascend.
    pub open spec fn ordered(self) -> bool {
        match self {
            SubjectModel::Basic { .. } => true,
            SubjectModel::Endorsement { endorsement, .. } => endorsement.ordered(),
            SubjectModel::Witness { witness_context, .. } => match witness_context {
                Some(context) => context.ordered(),
                None => true,
            },
            SubjectModel::RCard { card, .. } => card.ordered(),
        }
    }

    /// The member names that the shape of this subject defines.
    pub open spec fn names(self) -> Seq<Seq<char>> {
        match self {
            SubjectModel::Basic { .. } => seq![ID@],
            SubjectModel::Endorsement { .. } => seq![ID@, ENDORSEMENT@],
            SubjectModel::Witness { .. } => seq![ID@, DIGEST@, WITNESS_CONTEXT@],
            SubjectModel::RCard { .. } => seq![ID@, CARD@],
        }
    }

    /// Whether the members name the subject: `id`, once, with a text.
    pub open spec fn identified(members: Seq<(Seq<char>, JsonTree)>) -> bool {
        find(members, ID@) matches Found::Once(JsonTree::Text(_))
    }

    /// The identifier that the members give.
    pub open spec fn id_of(members: Seq<(Seq<char>, JsonTree)>) -> Seq<char> {
        find(members, ID@)->Once_0->Text_0
    }

    /// The shape of an endorsement: `id` and `endorsement`, and nothing
    /// else.
    pub open spec fn fits_endorsement(members: Seq<(Seq<char>, JsonTree)>) -> bool {
        &&& named_within(members, seq![ID@, ENDORSEMENT@])
        &&& distinct_names(members)
        &&& Self::identified(members)
        &&& find(members, ENDORSEMENT@) is Once
    }

    /// The shape of a card: `id` and `card`, and nothing else.
    pub open spec fn fits_rcard(members: Seq<(Seq<char>, JsonTree)>) -> bool {
        &&& named_within(members, seq![ID@, CARD@])
        &&& distinct_names(members)
        &&& Self::identified(members)
        &&& find(members, CARD@) is Once
    }

    /// The shape of a witness: `id`, with `digest` or `witnessContext` or
    /// both, and nothing else; the digest is a text or null.
    pub open spec fn fits_witness(members: Seq<(Seq<char>, JsonTree)>) -> bool {
        &&& named_within(members, seq![ID@, DIGEST@, WITNESS_CONTEXT@])
        &&& distinct_names(members)
        &&& Self::identified(members)
        &&& match find(members, DIGEST@) {
            Found::Once(digest) => digest is Text || digest is Null,
            _ => true,
        }
        &&& (find(members, DIGEST@) is Once || find(members, WITNESS_CONTEXT@) is Once)
    }

    /// The basic shape: `id`, and nothing else.
    pub open spec fn fits_basic(members: Seq<(Seq<char>, JsonTree)>) -> bool {
        &&& named_within(members, seq![ID@])
        &&& distinct_names(members)
        &&& Self::identified(members)
    }

    /// The digest that the members of a witness give: a text, or none where
    /// the member is missing or null.
    pub open spec fn digest_of(members: Seq<(Seq<char>, JsonTree)>) -> Option<Seq<char>> {
        match find(members, DIGEST@) {
            Found::Once(JsonTree::Text(digest)) => Some(digest),
            _ => None,
        }
    }

    /// The context that the members of a witness give: any value, sorted, or
    /// none where the member is missing or null.
    pub open spec fn witness_context_of(members: Seq<(Seq<char>, JsonTree)>) -> Option<JsonTree> {
        match find(members, WITNESS_CONTEXT@) {
            Found::Once(context) => if context is Null {
                None
            } else {
                Some(context.sorted())
            },
            _ => None,
        }
    }

    /// The subject that a raw payload resolves to. The shapes are tried in
    /// the order endorsement, card, witness, basic, and the first that fits
    /// is taken; a payload that fits none, or is no record, is malformed. An
    /// endorsement, a card and the context of a witness are taken sorted:
    /// the members of every record in them arranged by their names.
    pub open spec fn resolve(payload: JsonTree) -> Result<SubjectModel, DTGCredentialError> {
        match payload {
            JsonTree::Record(members) => if Self::fits_endorsement(members) {
                Ok(
                    SubjectModel::Endorsement {
                        id: Self::id_of(members),
                        endorsement: find(members, ENDORSEMENT@)->Once_0.sorted(),
                    },
                )
            } else if Self::fits_rcard(members) {
                Ok(
                    SubjectModel::RCard {
                        id: Self::id_of(members),
                        card: find(members, CARD@)->Once_0.sorted(),
                    },
                )
            } else if Self::fits_witness(members) {
                Ok(
                    SubjectModel::Witness {
                        id: Self::id_of(members),
                        digest: Self::digest_of(members),
                        witness_context: Self::witness_context_of(members),
                    },
                )
            } else if Self::fits_basic(members) {
                Ok(SubjectModel::Basic { id: Self::id_of(members) })
            } else {
                Err(DTGCredentialError::MalformedSubject)
            },
            _ => Err(DTGCredentialError::MalformedSubject),
        }
    }

    /// The members that a witness adds to `id`: those that it has.
    pub open spec fn witness_members(
        digest: Option<Seq<char>>,
        witness_context: Option<JsonTree>,
    ) -> Seq<(Seq<char>, JsonTree)> {
        let first = match digest {
            Some(digest) => seq![(DIGEST@, JsonTree::Text(digest))],
            None => seq![],
        };
        let second = match witness_context {
            Some(context) => seq![(WITNESS_CONTEXT@, context.sorted())],
            None => seq![],
        };
        first + second
    }

    /// The payload that stands for this subject in a document. An
    /// endorsement, a card and the context of a witness are written sorted:
    /// the members of every record in them arranged by their names.
    pub open spec fn payload(self) -> JsonTree {
        match self {
            SubjectModel::Basic { id } => JsonTree::Record(seq![(ID@, JsonTree::Text(id))]),
            SubjectModel::Endorsement { id, endorsement } => JsonTree::Record(
                seq![(ID@, JsonTree::Text(id)), (ENDORSEMENT@, endorsement.sorted())],
            ),
            SubjectModel::Witness { id, digest, witness_context } => JsonTree::Record(
                seq![(ID@, JsonTree::Text(id))] + Self::witness_members(digest, witness_context),
            ),
            SubjectModel::RCard { id, card } => JsonTree::Record(
                seq![(ID@, JsonTree::Text(id)), (CARD@, card.sorted())],
            ),
        }
    }
}

/// The text of the member at position `at`, where it is a text.
fn text_at(members: &Vec<(String, Json)>, at: usize) -> (text: Option<String>)
    requires
        at < members.len(),
    ensures
        match text {
            Some(text) => members[at as int].1@ == JsonTree::Text(text@),
            None => !(members[at as int].1@ is Text),
        },
{
    match &members[at].1 {
        Json::Text(text) => Some(text.clone()),
        _ => None,
    }
}

/// The identifier that the members give, where they name the subject.
fn identifier(members: &Vec<(String, Json)>) -> (id: Option<String>)
    ensures
        match id {
            Some(id) => SubjectModel::identified(members_view(*members)) && id@
                == SubjectModel::id_of(members_view(*members)),
            None => !SubjectModel::identified(members_view(*members)),
        },
{
    match locate(members, ID) {
        Slot::At(at) => text_at(members, at),
        _ => None,
    }
}

/// Whether every member has one of `allowed`, and none of these names
/// stands twice.
fn only_once_each(members: &Vec<(String, Json)>, allowed: &[&str]) -> (fine: bool)
    ensures
        fine == (named_within(members_view(*members), allowed.deep_view()) && distinct_names(
            members_view(*members),
        )),
{
    if !names_within(members, allowed) {
        return false;
    }
    let ghost view = members_view(*members);
    let mut rank: usize = 0;
    while rank < allowed.len()
        invariant
            rank <= allowed.len(),
            view == members_view(*members),
            named_within(view, allowed.deep_view()),
            forall|before: int|
                0 <= before < rank ==> !(find(view, #[trigger] allowed.deep_view()[before])
                    is Repeated),
        decreases allowed.len() - rank,
    {
        match locate(members, allowed[rank]) {
            Slot::Repeated => {
                proof {
                    if distinct_names(view) {
                        lemma_find_distinct(view, allowed.deep_view()[rank as int]);
                    }
                }
                return false;
            },
            _ => {},
        }
        rank = rank + 1;
    }
    proof {
        lemma_distinct_names(view, allowed.deep_view());
    }
    true
}

/// Tries the shape of an endorsement.
fn as_endorsement(members: &Vec<(String, Json)>) -> (subject: Option<CredentialSubject>)
    ensures
        match subject {
            Some(subject) => SubjectModel::fits_endorsement(members_view(*members)) && subject@
                == (SubjectModel::Endorsement {
                id: SubjectModel::id_of(members_view(*members)),
                endorsement: find(members_view(*members), ENDORSEMENT@)->Once_0.sorted(),
            }),
            None => !SubjectModel::fits_endorsement(members_view(*members)),
        },
{
    let allowed: [&str; 2] = [ID, ENDORSEMENT];
    let names: &[&str] = &allowed;
    assert(names.deep_view() =~= seq![ID@, ENDORSEMENT@]);
    if !only_once_each(members, names) {
        return None;
    }
    match (identifier(members), locate(members, ENDORSEMENT)) {
        (Some(id), Slot::At(at)) => Some(
            CredentialSubject::Endorsement(
                CredentialSubjectEndorsement { id, endorsement: members[at].1.sorted() },
            ),
        ),
        _ => None,
    }
}

/// Tries the shape of a card.
fn as_rcard(members: &Vec<(String, Json)>) -> (subject: Option<CredentialSubject>)
    ensures
        match subject {
            Some(subject) => SubjectModel::fits_rcard(members_view(*members)) && subject@ == (
            SubjectModel::RCard {
                id: SubjectModel::id_of(members_view(*members)),
                card: find(members_view(*members), CARD@)->Once_0.sorted(),
            }),
            None => !SubjectModel::fits_rcard(members_view(*members)),
        },
{
    let allowed: [&str; 2] = [ID, CARD];
    let names: &[&str] = &allowed;
    assert(names.deep_view() =~= seq![ID@, CARD@]);
    if !only_once_each(members, names) {
        return None;
    }
    match (identifier(members), locate(members, CARD)) {
        (Some(id), Slot::At(at)) => Some(
            CredentialSubject::RCard(CredentialSubjectRCard { id, card: members[at].1.sorted() }),
        ),
        _ => None,
    }
}

/// Tries the shape of a witness.
fn as_witness(members: &Vec<(String, Json)>) -> (subject: Option<CredentialSubject>)
    ensures
        match subject {
            Some(subject) => SubjectModel::fits_witness(members_view(*members)) && subject@ == (
            SubjectModel::Witness {
                id: SubjectModel::id_of(members_view(*members)),
                digest: SubjectModel::digest_of(members_view(*members)),
                witness_context: SubjectModel::witness_context_of(members_view(*members)),
            }),
            None => !SubjectModel::fits_witness(members_view(*members)),
        },
{
    let allowed: [&str; 3] = [ID, DIGEST, WITNESS_CONTEXT];
    let names: &[&str] = &allowed;
    assert(names.deep_view() =~= seq![ID@, DIGEST@, WITNESS_CONTEXT@]);
    if !only_once_each(members, names) {
        return None;
    }
    let id = match identifier(members) {
        Some(id) => id,
        None => {
            return None;
        },
    };
    let digest_slot = locate(members, DIGEST);
    let context_slot = locate(members, WITNESS_CONTEXT);
    let digest: Option<String> = match digest_slot {
        Slot::At(at) => match &members[at].1 {
            Json::Text(text) => Some(text.clone()),
            Json::Null => None,
            _ => {
                return None;
            },
        },
        _ => None,
    };
    let witness_context: Option<Json> = match context_slot {
        Slot::At(at) => match &members[at].1 {
            Json::Null => None,
            context => Some(context.sorted()),
        },
        _ => None,
    };
    match (digest_slot, context_slot) {
        (Slot::At(_), _) | (_, Slot::At(_)) => Some(
            CredentialSubject::Witness(CredentialSubjectWitness { id, digest, witness_context }),
        ),
        _ => None,
    }
}

/// Tries the basic shape.
fn as_basic(members: &Vec<(String, Json)>) -> (subject: Option<CredentialSubject>)
    ensures
        match subject {
            Some(subject) => SubjectModel::fits_basic(members_view(*members)) && subject@ == (
            SubjectModel::Basic { id: SubjectModel::id_of(members_view(*members)) }),
            None => !SubjectModel::fits_basic(members_view(*members)),
        },
{
    let allowed: [&str; 1] = [ID];
    let names: &[&str] = &allowed;
    assert(names.deep_view() =~= seq![ID@]);
    if !only_once_each(members, names) {
        return None;
    }
    match identifier(members) {
        Some(id) => Some(CredentialSubject::Basic(CredentialSubjectBasic { id })),
        None => None,
    }
}

impl CredentialSubject {
    /// Resolves a raw subject payload to the subject that it is. The shapes
    /// are tried in a fixed order, endorsement, card, witness, basic, and the
    /// first that fits is taken. A payload with a member that its shape does
    /// not define fits no shape, and is refused.
    pub fn from_payload(payload: &Json) -> (resolved: Result<CredentialSubject, DTGCredentialError>)
        ensures
            match resolved {
                Ok(subject) => SubjectModel::resolve(payload@) == Ok::<
                    SubjectModel,
                    DTGCredentialError,
                >(subject@),
                Err(error) => SubjectModel::resolve(payload@) == Err::<
                    SubjectModel,
                    DTGCredentialError,
                >(error),
            },
    {
        match payload {
            Json::Record(members) => {
                if let Some(subject) = as_endorsement(members) {
                    return Ok(subject);
                }
                if let Some(subject) = as_rcard(members) {
                    return Ok(subject);
                }
                if let Some(subject) = as_witness(members) {
                    return Ok(subject);
                }
                if let Some(subject) = as_basic(members) {
                    return Ok(subject);
                }
                Err(DTGCredentialError::MalformedSubject)
            },
            _ => Err(DTGCredentialError::MalformedSubject),
        }
    }

    /// The shape of this subject.
    pub fn shape(&self) -> (shape: SubjectShape)
        ensures
            shape == self@.shape(),
    {
        match self {
            CredentialSubject::Basic(_) => SubjectShape::Basic,
            CredentialSubject::Endorsement(_) => SubjectShape::Endorsement,
            CredentialSubject::Witness(_) => SubjectShape::Witness,
            CredentialSubject::RCard(_) => SubjectShape::RCard,
        }
    }

    /// Whether the endorsement, the card or the context of a witness that
    /// this subject holds is in order.
    pub fn is_ordered(&self) -> (ordered: bool)
        ensures
            ordered == self@.ordered(),
    {
        match self {
            CredentialSubject::Basic(_) => true,
            CredentialSubject::Endorsement(subject) => subject.endorsement.is_ordered(),
            CredentialSubject::Witness(subject) => match &subject.witness_context {
                Some(context) => context.is_ordered(),
                None => true,
            },
            CredentialSubject::RCard(subject) => subject.card.is_ordered(),
        }
    }

    /// The identifier of the subject.
    pub fn id(&self) -> (id: &str)
        ensures
            id@ == self@.id(),
    {
        match self {
            CredentialSubject::Basic(subject) => subject.id.as_str(),
            CredentialSubject::Endorsement(subject) => subject.id.as_str(),
            CredentialSubject::Witness(subject) => subject.id.as_str(),
            CredentialSubject::RCard(subject) => subject.id.as_str(),
        }
    }

    /// The payload that stands for this subject in a document: `id` first,
    /// then what the shape adds; a witness leaves out what it does not have.
    /// An endorsement, a card and the context of a witness are written
    /// sorted, whatever order their members were given in.
    pub fn to_payload(&self) -> (payload: Json)
        ensures
            payload@ == self@.payload(),
    {
        let mut members: Vec<(String, Json)> = Vec::new();
        match self {
            CredentialSubject::Basic(subject) => {
                members.push((String::from_str(ID), Json::Text(subject.id.clone())));
            },
            CredentialSubject::Endorsement(subject) => {
                members.push((String::from_str(ID), Json::Text(subject.id.clone())));
                members.push((String::from_str(ENDORSEMENT), subject.endorsement.sorted()));
            },
            CredentialSubject::Witness(subject) => {
                members.push((String::from_str(ID), Json::Text(subject.id.clone())));
                match &subject.digest {
                    Some(digest) => {
                        members.push((String::from_str(DIGEST), Json::Text(digest.clone())));
                    },
                    None => {},
                }
                match &subject.witness_context {
                    Some(context) => {
                        members.push((String::from_str(WITNESS_CONTEXT), context.sorted()));
                    },
                    None => {},
                }
            },
            CredentialSubject::RCard(subject) => {
                members.push((String::from_str(ID), Json::Text(subject.id.clone())));
                members.push((String::from_str(CARD), subject.card.sorted()));
            },
        }
        proof {
            lemma_members_view(members);
            assert(members_view(members) =~= self@.payload()->Record_0);
        }
        Json::Record(members)
    }
}

} // verus!
