//! The ways in which reading, resolving, signing or verifying a credential
//! can fail.

use vstd::prelude::*;
use vstd::string::StringExecFns;

verus! {

/// Errors related to DTG credentials.
#[derive(Debug, Clone, PartialEq, Eq)]
pub enum DTGCredentialError {
    /// The `type` list declares no kind of credential that is known.
    UnknownCredentialKind,
    /// The `@context` list names no version of the credential format.
    UnknownFormatVersion,
    /// The subject payload has the shape of no known subject.
    MalformedSubject,
    /// The declared kind and the shape of the subject do not go together.
    UnknownCredential,
    /// A verification was asked of a credential that carries no proof.
    NotSigned,
    /// The proof provider failed to sign or to verify; the text is its own.
    ProofProviderError(String),
    /// The document is not JSON, or it is not an envelope; the text says why.
    MalformedDocument(String),
}

impl DTGCredentialError {
    /// What `message` returns, as a sequence of characters.
    pub open spec fn message_text(self) -> Seq<char> {
        match self {
            DTGCredentialError::UnknownCredentialKind => "Unknown credential type"@,
            DTGCredentialError::UnknownFormatVersion => "Unknown format version"@,
            DTGCredentialError::MalformedSubject => "Malformed credential subject"@,
            DTGCredentialError::UnknownCredential => "Unknown credential type"@,
            DTGCredentialError::NotSigned => "Credential is not signed"@,
            DTGCredentialError::ProofProviderError(detail) => "Proof provider error: "@ + detail@,
            DTGCredentialError::MalformedDocument(detail) => "Malformed document: "@ + detail@,
        }
    }

    /// The error in words.
    pub fn message(&self) -> (text: String)
        ensures
            text@ == self.message_text(),
    {
        match self {
            DTGCredentialError::UnknownCredentialKind => String::from_str("Unknown credential type"),
            DTGCredentialError::UnknownFormatVersion => String::from_str("Unknown format version"),
            DTGCredentialError::MalformedSubject => String::from_str(
                "Malformed credential subject",
            ),
            DTGCredentialError::UnknownCredential => String::from_str("Unknown credential type"),
            DTGCredentialError::NotSigned => String::from_str("Credential is not signed"),
            DTGCredentialError::ProofProviderError(detail) => String::from_str(
                "Proof provider error: ",
            ).concat(detail.as_str()),
            DTGCredentialError::MalformedDocument(detail) => String::from_str(
                "Malformed document: ",
            ).concat(detail.as_str()),
        }
    }

    /// The error in words, under the name that `Display` would give it.
    pub fn to_string(&self) -> (text: String)
        ensures
            text@ == self.message_text(),
    {
        self.message()
    }
}

/// Whether an outcome is the refusal of a document that is malformed.
pub open spec fn refused_as_malformed<T>(outcome: Result<T, DTGCredentialError>) -> bool {
    match outcome {
        Err(error) => error is MalformedDocument,
        Ok(_) => false,
    }
}

/// Whether an outcome is a failure of the proof provider.
pub open spec fn failed_at_provider<T>(outcome: Result<T, DTGCredentialError>) -> bool {
    match outcome {
        Err(error) => error is ProofProviderError,
        Ok(_) => false,
    }
}

} // verus!
