//! The kinds of credential, the tags that declare them, and the resolution of
//! a `type` list to the kind it declares.

use crate::error::DTGCredentialError;
use crate::text::holds_text;
use vstd::prelude::*;
use vstd::string::StringExecFns;

verus! {

/// DTG credential type identifiers.
#[derive(Debug, Clone, Copy, PartialEq, Eq, Structural)]
#[non_exhaustive]
pub enum DTGCredentialType {
    Community,
    Membership,
    Personhood,
    Relationship,
    Invitation,
    Persona,
    Endorsement,
    Witness,
    RCard,
}

/// The shapes that the subject of a credential can have.
#[derive(Debug, Clone, Copy, PartialEq, Eq, Structural)]
pub enum SubjectShape {
    Basic,
    Endorsement,
    Witness,
    RCard,
}

/// The number of kinds in the registry.
pub const REGISTRY_LEN: usize = 9;

impl DTGCredentialType {
    /// The tag that declares this kind in a `type` list.
    pub open spec fn tag(self) -> Seq<char> {
        match self {
            DTGCredentialType::Community => "CommunityCredential"@,
            DTGCredentialType::Membership => "MembershipCredential"@,
            DTGCredentialType::Personhood => "PersonhoodCredential"@,
            DTGCredentialType::Relationship => "RelationshipCredential"@,
            DTGCredentialType::Invitation => "InvitationCredential"@,
            DTGCredentialType::Persona => "PersonaCredential"@,
            DTGCredentialType::Endorsement => "EndorsementCredential"@,
            DTGCredentialType::Witness => "WitnessCredential"@,
            DTGCredentialType::RCard => "RCardCredential"@,
        }
    }

    /// The registry of kinds, in the order in which a `type` list is held
    /// against them.
    pub open spec fn registry() -> Seq<DTGCredentialType> {
        seq![
            DTGCredentialType::Community,
            DTGCredentialType::Membership,
            DTGCredentialType::Personhood,
            DTGCredentialType::Relationship,
            DTGCredentialType::Invitation,
            DTGCredentialType::Persona,
            DTGCredentialType::Endorsement,
            DTGCredentialType::Witness,
            DTGCredentialType::RCard,
        ]
    }

    /// The first kind of the registry, from position `from` on, whose tag is
    /// among `tags`.
    pub open spec fn first_declared(tags: Seq<Seq<char>>, from: int) -> Option<DTGCredentialType>
        decreases Self::registry().len() - from,
    {
        if from < 0 || from >= Self::registry().len() {
            None
        } else if tags.contains(Self::registry()[from].tag()) {
            Some(Self::registry()[from])
        } else {
            Self::first_declared(tags, from + 1)
        }
    }

    /// The kind that a `type` list declares: the first kind of the registry
    /// whose tag the list holds. The order is that of the registry, not that
    /// of the list.
    pub open spec fn resolve(tags: Seq<Seq<char>>) -> Option<DTGCredentialType> {
        Self::first_declared(tags, 0)
    }

    /// The shape of subject that goes with this kind: each kind has one.
    pub open spec fn shape(self) -> SubjectShape {
        match self {
            DTGCredentialType::Endorsement => SubjectShape::Endorsement,
            DTGCredentialType::Witness => SubjectShape::Witness,
            DTGCredentialType::RCard => SubjectShape::RCard,
            _ => SubjectShape::Basic,
        }
    }

    /// The shape of subject that goes with this kind.
    pub fn subject_shape(&self) -> (shape: SubjectShape)
        ensures
            shape == self.shape(),
    {
        match self {
            DTGCredentialType::Endorsement => SubjectShape::Endorsement,
            DTGCredentialType::Witness => SubjectShape::Witness,
            DTGCredentialType::RCard => SubjectShape::RCard,
            _ => SubjectShape::Basic,
        }
    }

    /// The kind at position `rank` of the registry.
    pub fn ranked(rank: usize) -> (kind: Option<DTGCredentialType>)
        ensures
            rank < Self::registry().len() ==> kind == Some(Self::registry()[rank as int]),
            rank >= Self::registry().len() ==> kind is None,
    {
        match rank {
            0 => Some(DTGCredentialType::Community),
            1 => Some(DTGCredentialType::Membership),
            2 => Some(DTGCredentialType::Personhood),
            3 => Some(DTGCredentialType::Relationship),
            4 => Some(DTGCredentialType::Invitation),
            5 => Some(DTGCredentialType::Persona),
            6 => Some(DTGCredentialType::Endorsement),
            7 => Some(DTGCredentialType::Witness),
            8 => Some(DTGCredentialType::RCard),
            _ => None,
        }
    }

    /// The tag of this kind, as it stands in a `type` list.
    pub fn to_string(&self) -> (tag: String)
        ensures
            tag@ == self.tag(),
    {
        String::from_str(self.tag_str())
    }

    /// The tag of this kind, borrowed.
    pub fn tag_str(&self) -> (tag: &'static str)
        ensures
            tag@ == self.tag(),
    {
        match self {
            DTGCredentialType::Community => "CommunityCredential",
            DTGCredentialType::Membership => "MembershipCredential",
            DTGCredentialType::Personhood => "PersonhoodCredential",
            DTGCredentialType::Relationship => "RelationshipCredential",
            DTGCredentialType::Invitation => "InvitationCredential",
            DTGCredentialType::Persona => "PersonaCredential",
            DTGCredentialType::Endorsement => "EndorsementCredential",
            DTGCredentialType::Witness => "WitnessCredential",
            DTGCredentialType::RCard => "RCardCredential",
        }
    }
}

impl<'a> TryFrom<&'a [String]> for DTGCredentialType {
    type Error = DTGCredentialError;

    /// Resolves a `type` list to the kind it declares. Where the list holds
    /// the tags of several kinds, the kind that stands first in the registry
    /// is returned, wherever its tag stands in the list.
    fn try_from(types: &'a [String]) -> (resolved: Result<DTGCredentialType, DTGCredentialError>)
        ensures
            resolved == match Self::resolve(types.deep_view()) {
                Some(kind) => Ok::<DTGCredentialType, DTGCredentialError>(kind),
                None => Err(DTGCredentialError::UnknownCredentialKind),
            },
    {
        let mut rank: usize = 0;
        while rank < REGISTRY_LEN
            invariant
                rank <= REGISTRY_LEN,
                REGISTRY_LEN == Self::registry().len(),
                Self::resolve(types.deep_view()) == Self::first_declared(
                    types.deep_view(),
                    rank as int,
                ),
            decreases REGISTRY_LEN - rank,
        {
            match Self::ranked(rank) {
                Some(kind) => {
                    if holds_text(types, kind.tag_str()) {
                        return Ok(kind);
                    }
                },
                None => {},
            }
            rank = rank + 1;
        }
        Err(DTGCredentialError::UnknownCredentialKind)
    }
}

impl<'a> vstd::std_specs::convert::TryFromSpecImpl<&'a [String]> for DTGCredentialType {
    open spec fn obeys_try_from_spec() -> bool {
        true
    }

    open spec fn try_from_spec(types: &'a [String]) -> Result<Self, DTGCredentialError> {
        match Self::resolve(types.deep_view()) {
            Some(kind) => Ok(kind),
            None => Err(DTGCredentialError::UnknownCredentialKind),
        }
    }
}

impl DTGCredentialType {
    /// The position of this kind in the registry.
    pub open spec fn rank(self) -> int {
        match self {
            DTGCredentialType::Community => 0,
            DTGCredentialType::Membership => 1,
            DTGCredentialType::Personhood => 2,
            DTGCredentialType::Relationship => 3,
            DTGCredentialType::Invitation => 4,
            DTGCredentialType::Persona => 5,
            DTGCredentialType::Endorsement => 6,
            DTGCredentialType::Witness => 7,
            DTGCredentialType::RCard => 8,
        }
    }
}

/// The length and the first letter of each tag: no two tags have both in
/// common, so the tags of two kinds are two tags.
pub proof fn lemma_tag_marks()
    ensures
        DTGCredentialType::Community.tag().len() == 19,
        DTGCredentialType::Community.tag()[0] == 'C',
        DTGCredentialType::Membership.tag().len() == 20,
        DTGCredentialType::Membership.tag()[0] == 'M',
        DTGCredentialType::Personhood.tag().len() == 20,
        DTGCredentialType::Personhood.tag()[0] == 'P',
        DTGCredentialType::Relationship.tag().len() == 22,
        DTGCredentialType::Relationship.tag()[0] == 'R',
        DTGCredentialType::Invitation.tag().len() == 20,
        DTGCredentialType::Invitation.tag()[0] == 'I',
        DTGCredentialType::Persona.tag().len() == 17,
        DTGCredentialType::Persona.tag()[0] == 'P',
        DTGCredentialType::Endorsement.tag().len() == 21,
        DTGCredentialType::Endorsement.tag()[0] == 'E',
        DTGCredentialType::Witness.tag().len() == 17,
        DTGCredentialType::Witness.tag()[0] == 'W',
        DTGCredentialType::RCard.tag().len() == 15,
        DTGCredentialType::RCard.tag()[0] == 'R',
        forall|one: DTGCredentialType, other: DTGCredentialType|
            one != other ==> #[trigger] one.tag() != #[trigger] other.tag(),
{
    reveal_strlit("CommunityCredential");
    reveal_strlit("MembershipCredential");
    reveal_strlit("PersonhoodCredential");
    reveal_strlit("RelationshipCredential");
    reveal_strlit("InvitationCredential");
    reveal_strlit("PersonaCredential");
    reveal_strlit("EndorsementCredential");
    reveal_strlit("WitnessCredential");
    reveal_strlit("RCardCredential");
    assert forall|one: DTGCredentialType, other: DTGCredentialType| one != other implies (
    #[trigger] one.tag()) != (#[trigger] other.tag()) by {
        if one.tag().len() == other.tag().len() {
            assert(one.tag()[0] != other.tag()[0]);
        }
    }
}

/// A kind whose tag is among the tags is the kind that they declare, where
/// no kind before it in the registry has its tag among them.
pub proof fn lemma_resolve_first(tags: Seq<Seq<char>>, kind: DTGCredentialType)
    requires
        tags.contains(kind.tag()),
        forall|other: DTGCredentialType|
            other.rank() < kind.rank() ==> !tags.contains(#[trigger] other.tag()),
    ensures
        DTGCredentialType::resolve(tags) == Some(kind),
{
    reveal_with_fuel(DTGCredentialType::first_declared, 10);
    assert(DTGCredentialType::registry()[0] == DTGCredentialType::Community);
    assert(DTGCredentialType::registry()[1] == DTGCredentialType::Membership);
    assert(DTGCredentialType::registry()[2] == DTGCredentialType::Personhood);
    assert(DTGCredentialType::registry()[3] == DTGCredentialType::Relationship);
    assert(DTGCredentialType::registry()[4] == DTGCredentialType::Invitation);
    assert(DTGCredentialType::registry()[5] == DTGCredentialType::Persona);
    assert(DTGCredentialType::registry()[6] == DTGCredentialType::Endorsement);
    assert(DTGCredentialType::registry()[7] == DTGCredentialType::Witness);
    assert(DTGCredentialType::registry()[8] == DTGCredentialType::RCard);
    assert(DTGCredentialType::Community.rank() == 0);
    assert(DTGCredentialType::Membership.rank() == 1);
    assert(DTGCredentialType::Personhood.rank() == 2);
    assert(DTGCredentialType::Relationship.rank() == 3);
    assert(DTGCredentialType::Invitation.rank() == 4);
    assert(DTGCredentialType::Persona.rank() == 5);
    assert(DTGCredentialType::Endorsement.rank() == 6);
    assert(DTGCredentialType::Witness.rank() == 7);
    assert(DTGCredentialType::RCard.rank() == 8);
}

} // verus!
