//! secp256k1 public keys as the wallet holds them: the uncompressed SEC1
//! encoding of the point, together with the chain code that child keys are
//! derived with.

use vstd::prelude::*;
use crate::bytes::{copy_bytes, segments};
use crate::error::WalletError;

verus! {

/// Length of an uncompressed SEC1 point of secp256k1: a tag and two
/// coordinates of 32 bytes.
pub const SEC1_UNCOMPRESSED_LEN: usize = 65;

/// The tag byte that opens an uncompressed SEC1 point.
pub const SEC1_UNCOMPRESSED_TAG: u8 = 4;

/// Length of a chain code.
pub const CHAIN_CODE_LEN: usize = 32;

/// The point that a SEC1 encoding, compressed or not, stands for, re-encoded
/// without compression; `None` where the bytes encode no point of the curve.
pub uninterp spec fn sec1_point(encoded: Seq<u8>) -> Option<Seq<u8>>;

/// The child key and child chain code that hierarchical derivation gives for
/// a parent key in SEC1, a chain code and a path of byte-string segments;
/// `None` where the parent is no point of the curve or the chain code has
/// not 32 bytes.
pub uninterp spec fn derived_subkey(
    parent: Seq<u8>,
    chain_code: Seq<u8>,
    path: Seq<Seq<u8>>,
) -> Option<(Seq<u8>, Seq<u8>)>;

/// Whether `signature` is a valid ECDSA signature with low `s` over the
/// already hashed `digest` under the key with SEC1 encoding `key`. False
/// where key or signature do not parse.
pub uninterp spec fn ecdsa_verifies(key: Seq<u8>, digest: Seq<u8>, signature: Seq<u8>) -> bool;

/// A key and its chain code, as byte strings.
pub type KeyView = (Seq<u8>, Seq<u8>);

/// The shape of a point in uncompressed SEC1: 65 bytes, the first of them
/// the tag.
pub open spec fn is_uncompressed_sec1(key: Seq<u8>) -> bool {
    key.len() == SEC1_UNCOMPRESSED_LEN && key[0] == SEC1_UNCOMPRESSED_TAG
}

/// The shape of what the wallet keeps as a key: a point in uncompressed
/// SEC1 and a chain code of 32 bytes.
pub open spec fn is_key_material(key: Seq<u8>, chain_code: Seq<u8>) -> bool {
    is_uncompressed_sec1(key) && chain_code.len() == CHAIN_CODE_LEN
}

/// What the wallet keeps of a point and a chain code: the two as they are
/// where they have the shape of a key, and nothing where they have not.
pub open spec fn kept(key: Seq<u8>, chain_code: Seq<u8>) -> Option<KeyView> {
    if is_key_material(key, chain_code) {
        Some((key, chain_code))
    } else {
        None
    }
}

/// The key that the wallet keeps for a SEC1 point and a chain code that a
/// signing service reports.
pub open spec fn reported_key(encoded: Seq<u8>, chain_code: Seq<u8>) -> Option<KeyView> {
    match sec1_point(encoded) {
        Some(point) => kept(point, chain_code),
        None => None,
    }
}

/// The child that the wallet keeps for a parent key, its chain code and a
/// path.
pub open spec fn child_key(parent: Seq<u8>, chain_code: Seq<u8>, path: Seq<Seq<u8>>) -> Option<
    KeyView,
> {
    match derived_subkey(parent, chain_code, path) {
        Some(child) => kept(child.0, child.1),
        None => None,
    }
}

/// Calls `ic_secp256k1::PublicKey::deserialize_sec1` and, on the key it
/// gives, `serialize_sec1(false)`. Nothing is proved of it: the contract
/// only gives the outcome its name.
#[verifier::external_body]
fn parse_sec1(encoded: &[u8]) -> (point: Option<Vec<u8>>)
    ensures
        point.is_some() == sec1_point(encoded@).is_some(),
        point matches Some(p) ==> sec1_point(encoded@) == Some(p@),
{
    let key = ic_secp256k1::PublicKey::deserialize_sec1(encoded).ok()?;
    Some(key.serialize_sec1(false))
}

/// Calls `ic_secp256k1::PublicKey::derive_subkey_with_chain_code` on the
/// parsed parent, with the path handed over segment by segment, and
/// returns the child key in uncompressed SEC1 with the child chain code.
/// Nothing is proved of it: the contract only gives the outcome its name.
#[verifier::external_body]
fn derive_subkey(parent: &[u8], chain_code: &[u8], path: &Vec<Vec<u8>>) -> (child: Option<
    (Vec<u8>, Vec<u8>),
>)
    ensures
        child.is_some() == derived_subkey(parent@, chain_code@, segments(path@)).is_some(),
        child matches Some(c) ==> derived_subkey(parent@, chain_code@, segments(path@)) == Some(
            (c.0@, c.1@),
        ),
{
    let key = ic_secp256k1::PublicKey::deserialize_sec1(parent).ok()?;
    let code: [u8; 32] = chain_code.try_into().ok()?;
    let indices = path.iter().map(|segment| ic_secp256k1::DerivationIndex(segment.clone())).collect();
    let walk = ic_secp256k1::DerivationPath::new(indices);
    let (child_key, child_code) = key.derive_subkey_with_chain_code(&walk, &code);
    Some((child_key.serialize_sec1(false), child_code.to_vec()))
}

/// Calls `ic_secp256k1::PublicKey::verify_signature_prehashed` on the parsed
/// key. Nothing is proved of it: the contract only gives the answer its
/// name. A key that does not parse verifies nothing.
#[verifier::external_body]
fn verify_prehashed(key: &[u8], digest: &[u8], signature: &[u8]) -> (valid: bool)
    ensures
        valid == ecdsa_verifies(key@, digest@, signature@),
{
    match ic_secp256k1::PublicKey::deserialize_sec1(key) {
        Ok(parsed) => parsed.verify_signature_prehashed(digest, signature),
        Err(_) => false,
    }
}

/// A public key with its chain code.
#[derive(Debug)]
pub struct EcdsaPublicKey {
    public_key: Vec<u8>,
    chain_code: Vec<u8>,
}

impl EcdsaPublicKey {
    #[verifier::type_invariant]
    spec fn well_formed(&self) -> bool {
        is_uncompressed_sec1(self.public_key@) && self.chain_code@.len() == CHAIN_CODE_LEN
    }

    /// The point, in uncompressed SEC1.
    pub closed spec fn sec1(&self) -> Seq<u8> {
        self.public_key@
    }

    /// The chain code.
    pub closed spec fn code(&self) -> Seq<u8> {
        self.chain_code@
    }

    /// The key with the given point and chain code, which must have the
    /// shape of a key. Anything else is malformed data and reported as
    /// `ServiceUnavailable`.
    pub fn from_uncompressed(point: Vec<u8>, chain_code: Vec<u8>) -> (key: Result<
        Self,
        WalletError,
    >)
        ensures
            match kept(point@, chain_code@) {
                Some(material) => key matches Ok(k) && (k.sec1(), k.code()) == material,
                None => key matches Err(e) && e == WalletError::ServiceUnavailable,
            },
    {
        if point.len() != SEC1_UNCOMPRESSED_LEN || chain_code.len() != CHAIN_CODE_LEN {
            return Err(WalletError::ServiceUnavailable);
        }
        if point[0] != SEC1_UNCOMPRESSED_TAG {
            return Err(WalletError::ServiceUnavailable);
        }
        Ok(EcdsaPublicKey { public_key: point, chain_code })
    }

    /// The key that a signing service reports: a SEC1 point, compressed or
    /// not, and a chain code of 32 bytes. Anything else is malformed data
    /// and reported as `ServiceUnavailable`.
    pub fn from_sec1(encoded: &[u8], chain_code: &[u8]) -> (key: Result<Self, WalletError>)
        ensures
            match reported_key(encoded@, chain_code@) {
                Some(material) => key matches Ok(k) && (k.sec1(), k.code()) == material,
                None => key matches Err(e) && e == WalletError::ServiceUnavailable,
            },
    {
        match parse_sec1(encoded) {
            Some(point) => Self::from_uncompressed(point, copy_bytes(chain_code)),
            None => Err(WalletError::ServiceUnavailable),
        }
    }

    /// The child of this key along `path`, as the signing service derives
    /// it. A failed derivation is reported as `ServiceUnavailable`.
    pub fn derive_new_public_key(&self, path: &Vec<Vec<u8>>) -> (child: Result<Self, WalletError>)
        ensures
            match child_key(self.sec1(), self.code(), segments(path@)) {
                Some(material) => child matches Ok(k) && (k.sec1(), k.code()) == material,
                None => child matches Err(e) && e == WalletError::ServiceUnavailable,
            },
    {
        match derive_subkey(self.public_key.as_slice(), self.chain_code.as_slice(), path) {
            Some(pair) => Self::from_uncompressed(pair.0, pair.1),
            None => Err(WalletError::ServiceUnavailable),
        }
    }

    /// Whether `signature` verifies over the already hashed `digest` under
    /// this key.
    pub fn verify_signature_prehashed(&self, digest: &[u8], signature: &[u8]) -> (valid: bool)
        ensures
            valid == ecdsa_verifies(self.sec1(), digest@, signature@),
    {
        verify_prehashed(self.public_key.as_slice(), digest, signature)
    }

    /// The point in uncompressed SEC1: the tag `0x04`, then the two
    /// coordinates, 32 bytes each.
    pub fn as_sec1(&self) -> (encoded: &[u8])
        ensures
            encoded@ == self.sec1(),
            is_uncompressed_sec1(encoded@),
    {
        proof {
            use_type_invariant(self);
        }
        self.public_key.as_slice()
    }

    /// The chain code, 32 bytes.
    pub fn chain_code(&self) -> (code: &[u8])
        ensures
            code@ == self.code(),
            code@.len() == CHAIN_CODE_LEN,
    {
        proof {
            use_type_invariant(self);
        }
        self.chain_code.as_slice()
    }

    /// Whether two keys are the same point with the same chain code.
    pub fn same_as(&self, other: &EcdsaPublicKey) -> (same: bool)
        ensures
            same == (self.sec1() == other.sec1() && self.code() == other.code()),
    {
        crate::bytes::bytes_equal(self.public_key.as_slice(), other.public_key.as_slice())
            && crate::bytes::bytes_equal(self.chain_code.as_slice(), other.chain_code.as_slice())
    }
}

impl Clone for EcdsaPublicKey {
    fn clone(&self) -> (copy: Self)
        ensures
            copy.sec1() == self.sec1(),
            copy.code() == self.code(),
    {
        proof {
            use_type_invariant(self);
        }
        EcdsaPublicKey {
            public_key: copy_bytes(self.public_key.as_slice()),
            chain_code: copy_bytes(self.chain_code.as_slice()),
        }
    }
}

} // verus!
