//! Recovery ids: which of the at most four public keys that an ECDSA
//! signature recovers to is the signer's.

use vstd::prelude::*;
use crate::bytes::bytes_equal;
use crate::error::WalletError;

verus! {

/// The two bits that single out one recovered key.
///
/// The byte form is `0` and `1` for the normal candidates with even and odd
/// `y`, `2` and `3` for the x-reduced candidates.
#[derive(Clone, Copy, Debug, PartialEq, Eq, Structural)]
pub struct RecoveryId {
    y_odd: bool,
    x_reduced: bool,
}

impl RecoveryId {
    /// The byte form of a pair of bits.
    pub open spec fn byte_of(y_odd: bool, x_reduced: bool) -> u8 {
        if x_reduced {
            if y_odd { 3u8 } else { 2u8 }
        } else {
            if y_odd { 1u8 } else { 0u8 }
        }
    }

    /// Whether the `y` coordinate of the nonce point is odd.
    pub closed spec fn spec_is_y_odd(&self) -> bool {
        self.y_odd
    }

    /// Whether the id is of the x-reduced kind.
    pub closed spec fn spec_is_x_reduced(&self) -> bool {
        self.x_reduced
    }

    /// The byte form of the id.
    pub open spec fn spec_to_byte(&self) -> u8 {
        Self::byte_of(self.spec_is_y_odd(), self.spec_is_x_reduced())
    }

    /// The recovery id with byte form `byte`, for a byte in `0..=3`.
    pub closed spec fn of_byte(byte: u8) -> RecoveryId {
        RecoveryId { y_odd: byte == 1 || byte == 3, x_reduced: byte >= 2 }
    }

    /// `of_byte` undoes `spec_to_byte`.
    pub broadcast proof fn lemma_of_byte(byte: u8)
        requires
            byte <= 3,
        ensures
            (#[trigger] Self::of_byte(byte)).spec_to_byte() == byte,
            Self::of_byte(byte).spec_is_x_reduced() == (byte >= 2),
            Self::of_byte(byte).spec_is_y_odd() == (byte == 1 || byte == 3),
    {
    }

    /// The recovery id with the given bits.
    pub fn new(is_y_odd: bool, is_x_reduced: bool) -> (id: Self)
        ensures
            id.spec_is_y_odd() == is_y_odd,
            id.spec_is_x_reduced() == is_x_reduced,
    {
        RecoveryId { y_odd: is_y_odd, x_reduced: is_x_reduced }
    }

    /// The recovery id with the given byte form, if the byte is one.
    pub fn from_byte(byte: u8) -> (id: Option<Self>)
        ensures
            id == if byte <= 3 {
                Some(Self::of_byte(byte))
            } else {
                None
            },
    {
        if byte > 3 {
            None
        } else {
            Some(RecoveryId { y_odd: byte == 1 || byte == 3, x_reduced: byte >= 2 })
        }
    }

    /// True iff the `y` coordinate of the signature's nonce point is odd.
    #[verifier::when_used_as_spec(spec_is_y_odd)]
    pub fn is_y_odd(&self) -> (odd: bool)
        ensures
            odd == self.spec_is_y_odd(),
    {
        self.y_odd
    }

    /// True iff the `x` coordinate of the signature's nonce point had to be
    /// reduced modulo the group order to give `r`.
    #[verifier::when_used_as_spec(spec_is_x_reduced)]
    pub fn is_x_reduced(&self) -> (reduced: bool)
        ensures
            reduced == self.spec_is_x_reduced(),
    {
        self.x_reduced
    }

    /// The byte form, in `0..=3`.
    #[verifier::when_used_as_spec(spec_to_byte)]
    pub fn to_byte(&self) -> (byte: u8)
        ensures
            byte == self.spec_to_byte(),
            byte <= 3,
    {
        if self.x_reduced {
            if self.y_odd { 3 } else { 2 }
        } else {
            if self.y_odd { 1 } else { 0 }
        }
    }
}

/// Two recovery ids with the same byte form are the same.
pub proof fn lemma_byte_form_is_injective(a: RecoveryId, b: RecoveryId)
    requires
        a.spec_to_byte() == b.spec_to_byte(),
    ensures
        a == b,
{
}

/// The public key, as 65 bytes of uncompressed SEC1, that the signature
/// over the digest recovers to under the candidate with the given byte
/// form; `None` where there is none.
pub uninterp spec fn recovered_key(digest: Seq<u8>, signature: Seq<u8>, candidate: u8) -> Option<Seq<u8>>;

/// Whether the candidate recovers exactly `target`.
pub open spec fn candidate_recovers(
    digest: Seq<u8>,
    signature: Seq<u8>,
    candidate: u8,
    target: Seq<u8>,
) -> bool {
    recovered_key(digest, signature, candidate) == Some(target)
}

/// Whether no candidate below `bound` recovers `target`.
pub open spec fn none_recovers_below(
    digest: Seq<u8>,
    signature: Seq<u8>,
    bound: u8,
    target: Seq<u8>,
) -> bool {
    forall|c: u8| c < bound ==> !candidate_recovers(digest, signature, c, target)
}

/// What [`resolve_recovery_id`] answers: the first candidate, in the order
/// `0, 1, 2, 3` of byte forms, that recovers `target`.
pub open spec fn resolution(digest: Seq<u8>, signature: Seq<u8>, target: Seq<u8>) -> Option<u8> {
    if candidate_recovers(digest, signature, 0, target) {
        Some(0u8)
    } else if candidate_recovers(digest, signature, 1, target) {
        Some(1u8)
    } else if candidate_recovers(digest, signature, 2, target) {
        Some(2u8)
    } else if candidate_recovers(digest, signature, 3, target) {
        Some(3u8)
    } else {
        None
    }
}

/// Calls `k256::ecdsa::VerifyingKey::recover_from_prehash` on the parsed
/// signature (`k256::ecdsa::Signature::from_slice`) and recovery id
/// (`k256::ecdsa::RecoveryId::from_byte`), and returns the recovered point
/// in uncompressed SEC1. Nothing is proved of it: the contract only gives
/// the outcome its name. A signature or candidate that does not parse, and
/// a recovery that fails, give `None`.
#[verifier::external_body]
fn recover_with_candidate(digest: &[u8], signature: &[u8], candidate: u8) -> (key: Option<Vec<u8>>)
    ensures
        key.is_some() == recovered_key(digest@, signature@, candidate).is_some(),
        key matches Some(k) ==> recovered_key(digest@, signature@, candidate) == Some(k@),
{
    let parsed = k256::ecdsa::Signature::from_slice(signature).ok()?;
    let id = k256::ecdsa::RecoveryId::from_byte(candidate)?;
    let point = k256::ecdsa::VerifyingKey::recover_from_prehash(digest, &parsed, id).ok()?;
    Some(point.to_encoded_point(false).as_bytes().to_vec())
}

/// Whether a recovery gave exactly `target`.
pub fn recovers_to(recovered: &Option<Vec<u8>>, target: &[u8]) -> (hit: bool)
    ensures
        hit == (recovered matches Some(key) && key@ == target@),
{
    match recovered {
        Some(key) => bytes_equal(key.as_slice(), target),
        None => false,
    }
}

/// Finds the recovery id under which `signature` over `digest` recovers
/// `target`, a public key in uncompressed SEC1.
///
/// The candidates are tried in the fixed order normal/even, normal/odd,
/// x-reduced/even, x-reduced/odd, and the first whose recovered key equals
/// `target` byte for byte wins. If none does, the three inputs do not belong
/// together and the answer is `RecoveryIdNotFound`.
pub fn resolve_recovery_id(digest: &[u8], signature: &[u8], target: &[u8]) -> (found: Result<
    RecoveryId,
    WalletError,
>)
    ensures
        found == match resolution(digest@, signature@, target@) {
            Some(c) => Ok::<RecoveryId, WalletError>(RecoveryId::of_byte(c)),
            None => Err::<RecoveryId, WalletError>(WalletError::RecoveryIdNotFound),
        },
        found matches Ok(id) ==> candidate_recovers(digest@, signature@, id.spec_to_byte(), target@)
            && none_recovers_below(digest@, signature@, id.spec_to_byte(), target@),
        found is Err ==> none_recovers_below(digest@, signature@, 4, target@),
{
    let mut candidate: u8 = 0;
    while candidate < 4
        invariant
            candidate <= 4,
            none_recovers_below(digest@, signature@, candidate, target@),
        decreases 4 - candidate,
    {
        let recovered = recover_with_candidate(digest, signature, candidate);
        if recovers_to(&recovered, target) {
            let id = RecoveryId {
                y_odd: candidate == 1 || candidate == 3,
                x_reduced: candidate >= 2,
            };
            return Ok(id);
        }
        candidate += 1;
    }
    Err(WalletError::RecoveryIdNotFound)
}

/// The resolver's answer is the first candidate that recovers the target,
/// and there is an answer exactly when some candidate does: it never names
/// a candidate that recovers another key, and never passes over one that
/// recovers the target.
pub proof fn lemma_resolution_is_first_match(
    digest: Seq<u8>,
    signature: Seq<u8>,
    target: Seq<u8>,
    candidate: u8,
)
    ensures
        resolution(digest, signature, target) == Some(candidate) <==> candidate < 4
            && candidate_recovers(digest, signature, candidate, target) && none_recovers_below(
            digest,
            signature,
            candidate,
            target,
        ),
        resolution(digest, signature, target).is_none() <==> none_recovers_below(
            digest,
            signature,
            4,
            target,
        ),
{
    if none_recovers_below(digest, signature, 4, target) {
        assert(!candidate_recovers(digest, signature, 0, target));
        assert(!candidate_recovers(digest, signature, 1, target));
        assert(!candidate_recovers(digest, signature, 2, target));
        assert(!candidate_recovers(digest, signature, 3, target));
    }
    if candidate < 4 && candidate_recovers(digest, signature, candidate, target)
        && none_recovers_below(digest, signature, candidate, target) {
        if candidate > 0 {
            assert(!candidate_recovers(digest, signature, 0, target));
        }
        if candidate > 1 {
            assert(!candidate_recovers(digest, signature, 1, target));
        }
        if candidate > 2 {
            assert(!candidate_recovers(digest, signature, 2, target));
        }
    }
}

/// The resolver has one answer for one triple of inputs: two candidates
/// that are both the first to recover the target are the same candidate.
pub proof fn lemma_resolution_is_unique(
    digest: Seq<u8>,
    signature: Seq<u8>,
    target: Seq<u8>,
    a: u8,
    b: u8,
)
    requires
        candidate_recovers(digest, signature, a, target),
        none_recovers_below(digest, signature, a, target),
        candidate_recovers(digest, signature, b, target),
        none_recovers_below(digest, signature, b, target),
    ensures
        a == b,
{
}

/// A signature and digest whose candidates all recover other keys than the
/// target, or none, resolve to nothing.
pub proof fn lemma_foreign_signature_is_not_found(
    digest: Seq<u8>,
    signature: Seq<u8>,
    target: Seq<u8>,
)
    requires
        forall|c: u8| c < 4 ==> recovered_key(digest, signature, c) != Some(target),
    ensures
        resolution(digest, signature, target).is_none(),
{
}

} // verus!
