//! From an identity to the path along which its key is derived.
//!
//! The path has two segments: one byte that names the encoding, then the
//! identity as it is. Signing and address computation both use this one
//! encoding, so that the key that signs is the key whose address was
//! handed out.

use vstd::prelude::*;
use crate::bytes::{copy_bytes, segments};
use crate::ecdsa::{child_key, EcdsaPublicKey, KeyView};
use crate::error::WalletError;

verus! {

/// The byte that names the encoding of derivation paths.
pub const SCHEMA_V1: u8 = 1;

/// The derivation path of an identity.
pub open spec fn derivation_path_spec(owner: Seq<u8>) -> Seq<Seq<u8>> {
    seq![seq![SCHEMA_V1], owner]
}

/// The key and chain code derived for an identity from a root key and its
/// chain code, if the derivation succeeds.
pub open spec fn derived_key_of(root: Seq<u8>, root_code: Seq<u8>, owner: Seq<u8>) -> Option<
    KeyView,
> {
    child_key(root, root_code, derivation_path_spec(owner))
}

/// Distinct identities have distinct derivation paths; the empty identity
/// is no exception.
pub proof fn lemma_derivation_path_is_injective(a: Seq<u8>, b: Seq<u8>)
    requires
        a != b,
    ensures
        derivation_path_spec(a) != derivation_path_spec(b),
{
    assert(derivation_path_spec(a)[1] == a);
    assert(derivation_path_spec(b)[1] == b);
}

/// Builds the derivation path of an identity.
pub fn derivation_path(owner: &[u8]) -> (path: Vec<Vec<u8>>)
    ensures
        segments(path@) == derivation_path_spec(owner@),
{
    let mut schema: Vec<u8> = Vec::new();
    schema.push(SCHEMA_V1);
    let mut path: Vec<Vec<u8>> = Vec::new();
    path.push(schema);
    path.push(copy_bytes(owner));
    assert(segments(path@) =~= derivation_path_spec(owner@)) by {
        assert(segments(path@)[0] =~= seq![SCHEMA_V1]);
    }
    path
}

/// Derives the key of an identity from the root key. A failed derivation
/// is reported as `ServiceUnavailable`.
pub fn derive_public_key(owner: &[u8], public_key: &EcdsaPublicKey) -> (derived: Result<
    EcdsaPublicKey,
    WalletError,
>)
    ensures
        match derived_key_of(public_key.sec1(), public_key.code(), owner@) {
            Some(material) => derived matches Ok(k) && (k.sec1(), k.code()) == material,
            None => derived matches Err(e) && e == WalletError::ServiceUnavailable,
        },
{
    let path = derivation_path(owner);
    public_key.derive_new_public_key(&path)
}

} // verus!
