//! Builder methods for creating new entities.

use crate::credential::{CredentialModel, DTGCredential};
use crate::json::Json;
use crate::kind::DTGCredentialType;
use crate::subject::{
    CredentialSubject, CredentialSubjectBasic, CredentialSubjectEndorsement,
    CredentialSubjectRCard, CredentialSubjectWitness, SubjectModel,
};
use crate::timestamp::Timestamp;
use vstd::prelude::*;

verus! {

impl DTGCredential {
    /// Creates a new Verified Community Credential (VCC).
    /// issuer: the issuer DID of the credential.
    /// subject: the DID of the subject of this credential.
    /// valid_from: the instant from which this credential is valid.
    /// valid_until: optional, the instant until which this credential is valid.
    pub fn new_vcc(
        issuer: String,
        subject: String,
        valid_from: Timestamp,
        valid_until: Option<Timestamp>,
    ) -> (credential: Self)
        ensures
            credential@ == CredentialModel::built(
                issuer@,
                valid_from,
                valid_until,
                SubjectModel::Basic { id: subject@ },
                DTGCredentialType::Community,
                false,
            ),
    {
        Self::assemble(
            issuer,
            CredentialSubject::Basic(CredentialSubjectBasic { id: subject }),
            valid_from,
            valid_until,
            DTGCredentialType::Community,
            false,
        )
    }

    /// Creates a new Verified Membership Credential (VMC).
    /// issuer: the issuer DID of the credential.
    /// subject: the DID of the subject of this credential.
    /// valid_from: the instant from which this credential is valid.
    /// valid_until: optional, the instant until which this credential is valid.
    /// personhood: whether the credential also carries the mark of
    /// personhood, a tag beside that of its kind.
    pub fn new_vmc(
        issuer: String,
        subject: String,
        valid_from: Timestamp,
        valid_until: Option<Timestamp>,
        personhood: bool,
    ) -> (credential: Self)
        ensures
            credential@ == CredentialModel::built(
                issuer@,
                valid_from,
                valid_until,
                SubjectModel::Basic { id: subject@ },
                DTGCredentialType::Membership,
                personhood,
            ),
    {
        Self::assemble(
            issuer,
            CredentialSubject::Basic(CredentialSubjectBasic { id: subject }),
            valid_from,
            valid_until,
            DTGCredentialType::Membership,
            personhood,
        )
    }

    /// Creates a new Personhood Credential (PHC).
    /// issuer: the issuer DID of the credential.
    /// subject: the DID of the subject of this credential.
    /// valid_from: the instant from which this credential is valid.
    /// valid_until: optional, the instant until which this credential is valid.
    pub fn new_phc(
        issuer: String,
        subject: String,
        valid_from: Timestamp,
        valid_until: Option<Timestamp>,
    ) -> (credential: Self)
        ensures
            credential@ == CredentialModel::built(
                issuer@,
                valid_from,
                valid_until,
                SubjectModel::Basic { id: subject@ },
                DTGCredentialType::Personhood,
                false,
            ),
    {
        Self::assemble(
            issuer,
            CredentialSubject::Basic(CredentialSubjectBasic { id: subject }),
            valid_from,
            valid_until,
            DTGCredentialType::Personhood,
            false,
        )
    }

    /// Creates a new Verified Relationship Credential (VRC).
    /// issuer: the issuer DID of the credential.
    /// subject: the DID of the subject of this credential.
    /// valid_from: the instant from which this credential is valid.
    /// valid_until: optional, the instant until which this credential is valid.
    pub fn new_vrc(
        issuer: String,
        subject: String,
        valid_from: Timestamp,
        valid_until: Option<Timestamp>,
    ) -> (credential: Self)
        ensures
            credential@ == CredentialModel::built(
                issuer@,
                valid_from,
                valid_until,
                SubjectModel::Basic { id: subject@ },
                DTGCredentialType::Relationship,
                false,
            ),
    {
        Self::assemble(
            issuer,
            CredentialSubject::Basic(CredentialSubjectBasic { id: subject }),
            valid_from,
            valid_until,
            DTGCredentialType::Relationship,
            false,
        )
    }

    /// Creates a new Verified Invitation Credential (VIC).
    /// issuer: the issuer DID of the credential.
    /// subject: the DID of the subject of this credential.
    /// valid_from: the instant from which this credential is valid.
    /// valid_until: optional, the instant until which this credential is valid.
    pub fn new_vic(
        issuer: String,
        subject: String,
        valid_from: Timestamp,
        valid_until: Option<Timestamp>,
    ) -> (credential: Self)
        ensures
            credential@ == CredentialModel::built(
                issuer@,
                valid_from,
                valid_until,
                SubjectModel::Basic { id: subject@ },
                DTGCredentialType::Invitation,
                false,
            ),
    {
        Self::assemble(
            issuer,
            CredentialSubject::Basic(CredentialSubjectBasic { id: subject }),
            valid_from,
            valid_until,
            DTGCredentialType::Invitation,
            false,
        )
    }

    /// Creates a new Verified Persona Credential (VPC).
    /// issuer: the issuer DID of the credential.
    /// subject: the DID of the subject of this credential.
    /// valid_from: the instant from which this credential is valid.
    /// valid_until: optional, the instant until which this credential is valid.
    pub fn new_vpc(
        issuer: String,
        subject: String,
        valid_from: Timestamp,
        valid_until: Option<Timestamp>,
    ) -> (credential: Self)
        ensures
            credential@ == CredentialModel::built(
                issuer@,
                valid_from,
                valid_until,
                SubjectModel::Basic { id: subject@ },
                DTGCredentialType::Persona,
                false,
            ),
    {
        Self::assemble(
            issuer,
            CredentialSubject::Basic(CredentialSubjectBasic { id: subject }),
            valid_from,
            valid_until,
            DTGCredentialType::Persona,
            false,
        )
    }

    /// Creates a new Verified Endorsement Credential (VEC).
    /// issuer: the issuer DID of the credential.
    /// subject: the DID of the subject of this credential.
    /// valid_from: the instant from which this credential is valid.
    /// valid_until: optional, the instant until which this credential is valid.
    /// endorsement: the endorsement details for this credential; they are
    /// held sorted, the members of every record arranged by their names.
    pub fn new_vec(
        issuer: String,
        subject: String,
        valid_from: Timestamp,
        valid_until: Option<Timestamp>,
        endorsement: Json,
    ) -> (credential: Self)
        ensures
            credential@ == CredentialModel::built(
                issuer@,
                valid_from,
                valid_until,
                SubjectModel::Endorsement { id: subject@, endorsement: endorsement@.sorted() },
                DTGCredentialType::Endorsement,
                false,
            ),
    {
        Self::assemble(
            issuer,
            CredentialSubject::Endorsement(
                CredentialSubjectEndorsement { id: subject, endorsement: endorsement.sorted() },
            ),
            valid_from,
            valid_until,
            DTGCredentialType::Endorsement,
            false,
        )
    }

    /// Creates a new Verified Witness Credential (VWC).
    /// issuer: the issuer DID of the credential.
    /// subject: the DID of the subject of this credential.
    /// valid_from: the instant from which this credential is valid.
    /// valid_until: optional, the instant until which this credential is valid.
    /// digest: optional, cryptographic hash of the witnessed credential.
    /// witness_context: optional, semantic context for the witness; it is
    /// held sorted, the members of every record arranged by their names.
    pub fn new_vwc(
        issuer: String,
        subject: String,
        valid_from: Timestamp,
        valid_until: Option<Timestamp>,
        digest: Option<String>,
        witness_context: Option<Json>,
    ) -> (credential: Self)
        ensures
            credential@ == CredentialModel::built(
                issuer@,
                valid_from,
                valid_until,
                SubjectModel::Witness {
                    id: subject@,
                    digest: match digest {
                        Some(digest) => Some(digest@),
                        None => None,
                    },
                    witness_context: match witness_context {
                        Some(context) => Some(context@.sorted()),
                        None => None,
                    },
                },
                DTGCredentialType::Witness,
                false,
            ),
    {
        let witness_context = match witness_context {
            Some(context) => Some(context.sorted()),
            None => None,
        };
        Self::assemble(
            issuer,
            CredentialSubject::Witness(
                CredentialSubjectWitness { id: subject, digest, witness_context },
            ),
            valid_from,
            valid_until,
            DTGCredentialType::Witness,
            false,
        )
    }

    /// Creates a new Verified R-Card Credential.
    /// issuer: the issuer DID of the credential.
    /// subject: the DID of the subject of this credential.
    /// valid_from: the instant from which this credential is valid.
    /// valid_until: optional, the instant until which this credential is valid.
    /// card: JSON value after the jCard format (RFC 7095); it is held
    /// sorted, the members of every record arranged by their names.
    pub fn new_rcard(
        issuer: String,
        subject: String,
        valid_from: Timestamp,
        valid_until: Option<Timestamp>,
        card: Json,
    ) -> (credential: Self)
        ensures
            credential@ == CredentialModel::built(
                issuer@,
                valid_from,
                valid_until,
                SubjectModel::RCard { id: subject@, card: card@.sorted() },
                DTGCredentialType::RCard,
                false,
            ),
    {
        Self::assemble(
            issuer,
            CredentialSubject::RCard(CredentialSubjectRCard { id: subject, card: card.sorted() }),
            valid_from,
            valid_until,
            DTGCredentialType::RCard,
            false,
        )
    }
}

} // verus!
