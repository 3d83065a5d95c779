//! The threshold-signature key types this library takes from `threshold_crypto`.
use vstd::prelude::*;
use threshold_crypto::{PublicKey, SecretKeyShare};

verus! {

#[verifier::external_type_specification]
#[verifier::external_body]
pub struct ExSecretKeyShare(SecretKeyShare);

#[verifier::external_type_specification]
#[verifier::external_body]
pub struct ExPublicKey(PublicKey);

/// Relies on `SecretKeyShare::public_key_share` and `PublicKeyShare::to_bytes`:
/// the public share that belongs to a secret share, in its 48-byte compressed form.
#[verifier::external_body]
pub(crate) fn public_share_bytes(secret: &SecretKeyShare) -> (r: [u8; 48]) {
    secret.public_key_share().to_bytes()
}

/// Relies on `PublicKey::to_bytes`: a group public key in its 48-byte compressed form.
#[verifier::external_body]
pub(crate) fn public_key_bytes(key: &PublicKey) -> (r: [u8; 48]) {
    key.to_bytes()
}

} // verus!
