//! The proof provider: `affinidi_data_integrity` makes and checks the proof
//! of a document, with keys of `affinidi_secrets_resolver`. This library
//! carries a proof and hands documents over; it looks inside neither.

use crate::json::{Json, JsonTree};
use crate::syntax::{tree_from_value, value_from_tree, value_tree};
use affinidi_data_integrity::{DataIntegrityError, DataIntegrityProof};
use affinidi_secrets_resolver::secrets::Secret;
use serde_json::Value;
use vstd::prelude::*;

verus! {

/// The proof of a document, as the provider makes it.
#[verifier::external_type_specification]
#[verifier::external_body]
pub struct ExDataIntegrityProof(DataIntegrityProof);

/// The error of the provider.
#[verifier::external_type_specification]
#[verifier::external_body]
pub struct ExDataIntegrityError(DataIntegrityError);

/// A private key with its identifier.
#[verifier::external_type_specification]
#[verifier::external_body]
pub struct ExSecret(Secret);

/// A copy of a proof equals the proof.
pub assume_specification[ <DataIntegrityProof as Clone>::clone ](proof: &DataIntegrityProof) -> (copy:
    DataIntegrityProof)
    ensures
        copy == *proof,
;

/// The tree that `serde_json::to_value` makes of a proof, or `None` where it
/// returns an error.
pub uninterp spec fn proof_tree(proof: DataIntegrityProof) -> Option<JsonTree>;

/// The proof that `serde_json::from_value` makes of a value that holds the
/// tree, or `None` where it returns an error.
pub uninterp spec fn proof_reading(tree: JsonTree) -> Option<DataIntegrityProof>;

/// The number of bytes of the private key of a secret.
pub uninterp spec fn private_key_length(secret: Secret) -> nat;

/// Turns a proof into a JSON value.
///
/// Trusted: this is `serde_json::to_value`, on the provider's own
/// `Serialize` for its proof. The contract gives the outcome the name
/// `proof_tree`.
#[verifier::external_body]
pub(crate) fn value_from_proof(proof: &DataIntegrityProof) -> (made: Result<
    Value,
    serde_json::Error,
>)
    ensures
        match made {
            Ok(value) => proof_tree(*proof) == Some(value_tree(value)),
            Err(_) => proof_tree(*proof) is None,
        },
{
    serde_json::to_value(proof)
}

/// Reads a proof from a JSON value.
///
/// Trusted: this is `serde_json::from_value`, on the provider's own
/// `Deserialize` for its proof. The contract gives the outcome the name
/// `proof_reading`, applied to the tree that the value holds.
#[verifier::external_body]
pub(crate) fn proof_from_value(value: Value) -> (read: Result<
    DataIntegrityProof,
    serde_json::Error,
>)
    ensures
        match read {
            Ok(proof) => proof_reading(value_tree(value)) == Some(proof),
            Err(_) => proof_reading(value_tree(value)) is None,
        },
{
    serde_json::from_value::<DataIntegrityProof>(value)
}

/// The number of bytes of the private key of a secret.
///
/// Trusted: this is `Secret::get_private_bytes`, and the length of the slice
/// that it returns.
#[verifier::external_body]
pub(crate) fn private_key_len(secret: &Secret) -> (length: usize)
    ensures
        length == private_key_length(*secret),
{
    secret.get_private_bytes().len()
}

/// Asks the provider for a proof of a document.
///
/// Trusted: this is `DataIntegrityProof::sign_jcs_data`, with no context of
/// its own for the proof. It brings the document into its canonical form,
/// and signs with the key of the secret. The proof depends on the key and,
/// where no time of creation is given, on the clock: nothing is claimed of
/// the outcome. With an Ed25519 key that is not 32 bytes long the provider
/// panics; the contract keeps every key of another length out.
#[verifier::external_body]
pub(crate) fn sign_document(document: &Value, secret: &Secret, created: Option<String>) -> (made:
    Result<DataIntegrityProof, DataIntegrityError>)
    requires
        private_key_length(*secret) == 32,
{
    DataIntegrityProof::sign_jcs_data(document, None, secret, created)
}

/// Asks the provider whether a proof is the proof of a document, under a
/// public key.
///
/// Trusted: this is `verification_proof::verify_data_with_public_key`, with
/// no context of its own for the proof, and the flag `verified` of what it
/// returns. It holds the time of creation of the proof against the clock:
/// nothing is claimed of the outcome.
#[verifier::external_body]
pub(crate) fn verify_document(
    document: &Value,
    proof: &DataIntegrityProof,
    public_key: &[u8],
) -> (checked: Result<bool, DataIntegrityError>) {
    affinidi_data_integrity::verification_proof::verify_data_with_public_key(
        document,
        None,
        proof,
        public_key,
    ).map(|outcome| outcome.verified)
}

/// The words of an error of the provider.
///
/// Trusted: this is the error's `Display`, through `to_string`. Nothing is
/// claimed of the text.
#[verifier::external_body]
pub(crate) fn provider_error_text(error: &DataIntegrityError) -> (text: String) {
    error.to_string()
}

/// The outcome of reading a proof from a member of a document: the proof,
/// or nothing where a record of the member has a name twice or the provider
/// refuses it.
pub open spec fn proof_of(tree: JsonTree) -> Option<DataIntegrityProof> {
    if tree.unambiguous() {
        proof_reading(tree)
    } else {
        None
    }
}

/// Reads a proof from a member of a document.
pub fn proof_from_tree(tree: &Json) -> (read: Option<DataIntegrityProof>)
    ensures
        read == proof_of(tree@),
{
    if !tree.is_unambiguous() {
        return None;
    }
    match proof_from_value(value_from_tree(tree)) {
        Ok(proof) => Some(proof),
        Err(_) => None,
    }
}

/// Turns a proof into the member of a document that stands for it.
pub fn tree_from_proof(proof: &DataIntegrityProof) -> (made: Option<Json>)
    ensures
        match made {
            Some(tree) => proof_tree(*proof) == Some(tree@),
            None => proof_tree(*proof) is None,
        },
{
    match value_from_proof(proof) {
        Ok(value) => Some(tree_from_value(&value)),
        Err(_) => None,
    }
}

} // verus!
