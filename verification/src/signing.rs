//! Signing a credential and verifying its proof. The cryptography is the
//! provider's; what is decided here is what is handed to it, and what is made
//! of its answer.

use crate::credential::{CredentialModel, DTGCredential};
use crate::error::{failed_at_provider, refused_as_malformed, DTGCredentialError};
use crate::integrity::{
    private_key_len, private_key_length, provider_error_text, sign_document, verify_document,
};
use crate::syntax::value_from_tree;
use crate::timestamp::Timestamp;
use affinidi_data_integrity::{DataIntegrityError, DataIntegrityProof};
use affinidi_secrets_resolver::secrets::Secret;
use vstd::prelude::*;
use vstd::string::StringExecFns;

verus! {

/// The number of bytes of a private key that the provider signs with.
pub const PRIVATE_KEY_BYTES: usize = 32;

impl CredentialModel {
    /// Whether the credential without its proof has a document that can be
    /// handed to the provider: every instant has a text, and no record has a
    /// name twice.
    pub open spec fn presentable(self) -> bool {
        match self.envelope.unsigned().document() {
            Some(document) => document.unambiguous(),
            None => false,
        }
    }
}

/// Whether a time of creation is given that has no text.
pub open spec fn undated(created: Option<Timestamp>) -> bool {
    match created {
        Some(instant) => instant.text() is None,
        None => false,
    }
}

/// The error that stands for an error of the provider.
pub fn provider_error(error: &DataIntegrityError) -> (wrapped: DTGCredentialError)
    ensures
        wrapped is ProofProviderError,
{
    DTGCredentialError::ProofProviderError(provider_error_text(error))
}

impl DTGCredential {
    /// Takes the answer of the provider to a request for a proof: a proof is
    /// put on the credential and returned; an error leaves the credential as
    /// it was, and is passed on.
    pub fn accept_proof(
        &mut self,
        answer: Result<DataIntegrityProof, DataIntegrityError>,
    ) -> (signed: Result<DataIntegrityProof, DTGCredentialError>)
        ensures
            match answer {
                Ok(proof) => signed == Ok::<DataIntegrityProof, DTGCredentialError>(proof)
                    && final(self)@ == old(self)@.with_proof(proof),
                Err(_) => failed_at_provider(signed) && final(self)@ == old(self)@,
            },
    {
        match answer {
            Ok(proof) => {
                self.attach(proof.clone());
                Ok(proof)
            },
            Err(error) => Err(provider_error(&error)),
        }
    }

    /// Signs the credential with a secret, and puts the proof on it. The
    /// provider is handed the document of the credential without its proof,
    /// and the time of creation where one is given. After a success the
    /// credential is signed; after a failure it is as it was. The credential
    /// is refused as malformed where it has no such document, or the time of
    /// creation no text, and only then; every other failure is the
    /// provider's, or that of a key the provider cannot take.
    pub fn sign(&mut self, secret: &Secret, created: Option<Timestamp>) -> (signed: Result<
        DataIntegrityProof,
        DTGCredentialError,
    >)
        ensures
            match signed {
                Ok(proof) => {
                    &&& final(self)@ == old(self)@.with_proof(proof)
                    &&& final(self)@.envelope.signed()
                },
                Err(error) => final(self)@ == old(self)@ && (error is MalformedDocument || error
                    is ProofProviderError),
            },
            refused_as_malformed(signed) <==> !old(self)@.presentable() || undated(created),
            old(self)@.presentable() && !undated(created) && private_key_length(*secret)
                != PRIVATE_KEY_BYTES ==> failed_at_provider(signed),
    {
        let document = match self.credential().to_unsigned_document() {
            Ok(document) => document,
            Err(error) => {
                return Err(error);
            },
        };
        if !document.is_unambiguous() {
            return Err(DTGCredentialError::MalformedDocument(crate::syntax::repeated_name_text()));
        }
        let created = match created {
            Some(instant) => match instant.to_rfc3339() {
                Some(text) => Some(text),
                None => {
                    return Err(
                        DTGCredentialError::MalformedDocument(
                            String::from_str("the time of creation has no date"),
                        ),
                    );
                },
            },
            None => None,
        };
        if private_key_len(secret) != PRIVATE_KEY_BYTES {
            return Err(
                DTGCredentialError::ProofProviderError(
                    String::from_str("the private key is not 32 bytes long"),
                ),
            );
        }
        let answer = sign_document(&value_from_tree(&document), secret, created);
        self.accept_proof(answer)
    }

    /// Takes the answer of the provider to a request for a verification: its
    /// verdict is returned, and an error is passed on.
    pub fn conclude(answer: Result<bool, DataIntegrityError>) -> (verified: Result<
        bool,
        DTGCredentialError,
    >)
        ensures
            match answer {
                Ok(verdict) => verified == Ok::<bool, DTGCredentialError>(verdict),
                Err(_) => failed_at_provider(verified),
            },
    {
        match answer {
            Ok(verdict) => Ok(verdict),
            Err(error) => Err(provider_error(&error)),
        }
    }

    /// Verifies the proof of the credential under a public key. The provider
    /// is handed the document of the credential without its proof, the proof,
    /// and the key. A credential without a proof is refused as not signed,
    /// before anything else is looked at. A signed credential is refused as
    /// malformed where it has no such document, and only then; every other
    /// failure is the provider's.
    pub fn verify(&self, public_key: &[u8]) -> (verified: Result<bool, DTGCredentialError>)
        ensures
            !self@.envelope.signed() ==> verified == Err::<bool, DTGCredentialError>(
                DTGCredentialError::NotSigned,
            ),
            refused_as_malformed(verified) <==> self@.envelope.signed() && !self@.presentable(),
            self@.envelope.signed() && verified is Err ==> refused_as_malformed(verified)
                || failed_at_provider(verified),
    {
        let envelope = self.credential();
        let carried = &envelope.proof;
        if carried.is_none() {
            return Err(DTGCredentialError::NotSigned);
        }
        let proof = carried.as_ref().unwrap();
        let document = match envelope.to_unsigned_document() {
            Ok(document) => document,
            Err(error) => {
                return Err(error);
            },
        };
        if !document.is_unambiguous() {
            return Err(DTGCredentialError::MalformedDocument(crate::syntax::repeated_name_text()));
        }
        Self::conclude(verify_document(&value_from_tree(&document), proof, public_key))
    }
}

} // verus!
