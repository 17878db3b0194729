//! Account addresses: the last 20 bytes of the Keccak-256 hash of a public
//! key's two coordinates.

use vstd::prelude::*;
use crate::ecdsa::{is_uncompressed_sec1, EcdsaPublicKey};

verus! {

/// Length of an address.
pub const ADDRESS_LEN: usize = 20;

/// The Keccak-256 hash of a byte string, 32 bytes.
pub uninterp spec fn keccak256_digest(data: Seq<u8>) -> Seq<u8>;

/// Calls `alloy_primitives::keccak256`. Nothing is proved of it: the
/// contract only gives the 32 bytes of the hash their name.
#[verifier::external_body]
fn keccak256(data: &[u8]) -> (digest: [u8; 32])
    ensures
        digest@ == keccak256_digest(data@),
{
    alloy_primitives::keccak256(data).0
}

/// The character for a value below 16, lower case.
pub open spec fn hex_digit(nibble: u8) -> char {
    if nibble < 10 {
        (48 + nibble) as char
    } else {
        (87 + nibble) as char
    }
}

/// Two lower-case hexadecimal digits for each byte, in order.
pub open spec fn lower_hex(data: Seq<u8>) -> Seq<char> {
    Seq::new(
        2 * data.len(),
        |i: int| if i % 2 == 0 { hex_digit(data[i / 2] / 16) } else { hex_digit(data[i / 2] % 16) },
    )
}

/// Calls `alloy_primitives::hex::encode_prefixed`, which the crate documents
/// as the lower-case hexadecimal digits of the bytes behind the prefix `0x`.
#[verifier::external_body]
fn hex_with_prefix(data: &[u8]) -> (text: String)
    ensures
        text@ == seq!['0', 'x'] + lower_hex(data@),
{
    alloy_primitives::hex::encode_prefixed(data)
}

/// The address of the key with uncompressed SEC1 encoding `key`.
pub open spec fn address_of(key: Seq<u8>) -> Seq<u8>
    recommends
        is_uncompressed_sec1(key),
{
    keccak256_digest(key.subrange(1, 65)).subrange(12, 32)
}

/// A 20-byte account identifier.
#[derive(Clone, Copy, Debug)]
pub struct Address {
    bytes: [u8; 20],
}

impl View for Address {
    type V = Seq<u8>;

    closed spec fn view(&self) -> Seq<u8> {
        self.bytes@
    }
}

impl Address {
    /// The address with the given bytes.
    pub fn new(bytes: [u8; 20]) -> (address: Self)
        ensures
            address@ == bytes@,
    {
        Address { bytes }
    }

    /// The address of a public key: the hash of its 64 coordinate bytes,
    /// without the first 12 bytes of the hash.
    pub fn from_public_key(key: &EcdsaPublicKey) -> (address: Self)
        ensures
            address@ == address_of(key.sec1()),
            address@.len() == ADDRESS_LEN,
    {
        let encoded = key.as_sec1();
        let coordinates = vstd::slice::slice_subrange(encoded, 1, 65);
        Self::from_digest(&keccak256(coordinates))
    }

    /// The address that a hash of 32 bytes gives: its last 20 bytes.
    pub fn from_digest(digest: &[u8; 32]) -> (address: Self)
        ensures
            address@ == digest@.subrange(12, 32),
            address@.len() == ADDRESS_LEN,
    {
        let mut bytes = [0u8; 20];
        let mut i: usize = 0;
        while i < 20
            invariant
                i <= 20,
                forall|j: int| 0 <= j < i ==> bytes@[j] == digest@[12 + j],
            decreases 20 - i,
        {
            bytes[i] = digest[12 + i];
            i += 1;
        }
        assert(bytes@ =~= digest@.subrange(12, 32));
        Address { bytes }
    }

    /// The 20 bytes.
    pub fn into_bytes(self) -> (bytes: [u8; 20])
        ensures
            bytes@ == self@,
    {
        self.bytes
    }

    /// Whether two addresses are the same.
    pub fn same_as(&self, other: &Address) -> (same: bool)
        ensures
            same == (self@ == other@),
    {
        crate::bytes::bytes_equal(self.bytes.as_slice(), other.bytes.as_slice())
    }

    /// The usual rendering: `0x` and 40 lower-case hexadecimal digits.
    pub fn to_hex(&self) -> (text: String)
        ensures
            text@ == seq!['0', 'x'] + lower_hex(self@),
            text@.len() == 42,
    {
        hex_with_prefix(self.bytes.as_slice())
    }
}

} // verus!
