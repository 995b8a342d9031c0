//! Decentralized Trust Graph (DTG) credentials: the common envelope, the
//! resolution of a document to a typed credential, and the constructors of
//! each kind of credential.

pub mod create;
pub mod credential;
pub mod envelope;
pub mod error;
pub mod integrity;
pub mod json;
pub mod kind;
pub mod laws;
pub mod order;
pub mod signing;
pub mod subject;
pub mod syntax;
pub mod text;
pub mod timestamp;
pub mod version;

pub use crate::credential::DTGCredential;
pub use crate::envelope::DTGCommon;
pub use crate::error::DTGCredentialError;
pub use crate::json::Json;
pub use crate::kind::DTGCredentialType;
pub use crate::subject::{
    CredentialSubject, CredentialSubjectBasic, CredentialSubjectEndorsement,
    CredentialSubjectRCard, CredentialSubjectWitness,
};
pub use crate::timestamp::Timestamp;
pub use crate::version::FormatVersion;
