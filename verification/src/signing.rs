//! The two halves of a signing request: what is sent to the threshold
//! signer, and what is made of its reply.

use vstd::prelude::*;
use crate::ecdsa::{ecdsa_verifies, EcdsaPublicKey};
use crate::error::WalletError;
use crate::recovery::{
    candidate_recovers,
    none_recovers_below,
    recovered_key,
    resolution,
    resolve_recovery_id,
    RecoveryId,
};

verus! {

/// Length of a raw signature: `r` and `s`, 32 bytes each.
pub const SIGNATURE_LEN: usize = 64;

/// The curves that the signing service knows.
#[derive(Clone, Copy, Debug, PartialEq, Eq, Structural)]
pub enum EcdsaCurve {
    Secp256k1,
}

/// The name of a key held by the signing service.
#[derive(Debug)]
pub struct EcdsaKeyId {
    pub curve: EcdsaCurve,
    pub name: String,
}

/// A request to the threshold signer.
#[derive(Debug)]
pub struct SignWithEcdsaArgument {
    pub message_hash: Vec<u8>,
    pub derivation_path: Vec<Vec<u8>>,
    pub key_id: EcdsaKeyId,
}

/// Whether a recovery id may leave the wallet: the x-reduced kind may not.
pub fn check_recovery_policy(id: RecoveryId) -> (checked: Result<RecoveryId, WalletError>)
    ensures
        checked == if id.spec_is_x_reduced() {
            Err::<RecoveryId, WalletError>(WalletError::XReducedRecoveryRejected)
        } else {
            Ok::<RecoveryId, WalletError>(id)
        },
{
    if id.is_x_reduced() {
        Err(WalletError::XReducedRecoveryRejected)
    } else {
        Ok(id)
    }
}

/// Whether a signature may be used: one that does not verify may not.
pub fn check_verification(valid: bool) -> (checked: Result<(), WalletError>)
    ensures
        checked == if valid {
            Ok::<(), WalletError>(())
        } else {
            Err::<(), WalletError>(WalletError::VerificationFailure)
        },
{
    if valid {
        Ok(())
    } else {
        Err(WalletError::VerificationFailure)
    }
}

/// What is made of the signer's reply: the byte form of the recovery id
/// that goes out with the signature, or the reason why nothing goes out.
pub open spec fn signing_outcome(key: Seq<u8>, digest: Seq<u8>, reply: Seq<u8>) -> Result<
    u8,
    WalletError,
> {
    if reply.len() != SIGNATURE_LEN {
        Err(WalletError::ServiceUnavailable)
    } else if !ecdsa_verifies(key, digest, reply) {
        Err(WalletError::VerificationFailure)
    } else {
        match resolution(digest, reply, key) {
            None => Err(WalletError::RecoveryIdNotFound),
            Some(c) => if c >= 2 {
                Err(WalletError::XReducedRecoveryRejected)
            } else {
                Ok(c)
            },
        }
    }
}

/// Verifies a signature under `key` and finds its recovery id.
///
/// A signature that does not verify is a `VerificationFailure`, whatever
/// its candidates recover to.
pub fn compute_recovery_id(key: &EcdsaPublicKey, message_hash: &[u8], signature: &[u8]) -> (found:
    Result<RecoveryId, WalletError>)
    ensures
        found == if !ecdsa_verifies(key.sec1(), message_hash@, signature@) {
            Err::<RecoveryId, WalletError>(WalletError::VerificationFailure)
        } else {
            match resolution(message_hash@, signature@, key.sec1()) {
                None => Err::<RecoveryId, WalletError>(WalletError::RecoveryIdNotFound),
                Some(c) => Ok::<RecoveryId, WalletError>(RecoveryId::of_byte(c)),
            }
        },
        found matches Ok(id) ==> candidate_recovers(
            message_hash@,
            signature@,
            id.spec_to_byte(),
            key.sec1(),
        ) && none_recovers_below(message_hash@, signature@, id.spec_to_byte(), key.sec1()),
{
    match check_verification(key.verify_signature_prehashed(message_hash, signature)) {
        Ok(()) => resolve_recovery_id(message_hash, signature, key.as_sec1()),
        Err(e) => Err(e),
    }
}

/// Turns the signer's reply into a recoverable signature.
///
/// The reply must be 64 bytes, must verify over `message_hash` under `key`,
/// and one of its candidates must recover `key`; the first that does gives
/// the recovery id. A recovery id of the x-reduced kind is refused.
pub fn complete_signature(key: &EcdsaPublicKey, message_hash: &[u8; 32], reply: &[u8]) -> (signed:
    Result<([u8; 64], RecoveryId), WalletError>)
    ensures
        match signing_outcome(key.sec1(), message_hash@, reply@) {
            Ok(c) => signed matches Ok(pair) && pair.0@ == reply@ && pair.1.spec_to_byte() == c,
            Err(e) => signed == Err::<([u8; 64], RecoveryId), WalletError>(e),
        },
        signed matches Ok(pair) ==> {
            &&& ecdsa_verifies(key.sec1(), message_hash@, pair.0@)
            &&& recovered_key(message_hash@, pair.0@, pair.1.spec_to_byte()) == Some(key.sec1())
            &&& none_recovers_below(message_hash@, pair.0@, pair.1.spec_to_byte(), key.sec1())
            &&& !pair.1.spec_is_x_reduced()
        },
{
    if reply.len() != SIGNATURE_LEN {
        return Err(WalletError::ServiceUnavailable);
    }
    let mut signature = [0u8; 64];
    let mut i: usize = 0;
    while i < 64
        invariant
            i <= 64,
            reply.len() == 64,
            forall|j: int| 0 <= j < i ==> signature@[j] == reply@[j],
        decreases 64 - i,
    {
        signature[i] = reply[i];
        i += 1;
    }
    assert(signature@ =~= reply@);
    proof {
        match resolution(message_hash@, reply@, key.sec1()) {
            Some(c) => RecoveryId::lemma_of_byte(c),
            None => {},
        }
    }
    let id = match compute_recovery_id(key, message_hash.as_slice(), reply) {
        Ok(id) => id,
        Err(e) => {
            return Err(e);
        },
    };
    match check_recovery_policy(id) {
        Ok(id) => Ok((signature, id)),
        Err(e) => Err(e),
    }
}

/// Whatever leaves the wallet as a signature has 64 bytes, verifies under
/// the wallet's key, recovers exactly that key under the recovery id that
/// comes with it, and has a recovery id of the normal kind.
pub proof fn lemma_signature_verifies_and_recovers(
    key: Seq<u8>,
    digest: Seq<u8>,
    reply: Seq<u8>,
    candidate: u8,
)
    requires
        signing_outcome(key, digest, reply) == Ok::<u8, WalletError>(candidate),
    ensures
        reply.len() == SIGNATURE_LEN,
        ecdsa_verifies(key, digest, reply),
        recovered_key(digest, reply, candidate) == Some(key),
        resolution(digest, reply, key) == Some(candidate),
        candidate <= 1,
{
}

/// Each way in which a reply is turned down has its own error, and a reply
/// is turned down only in one of these four ways.
pub proof fn lemma_signing_failures(key: Seq<u8>, digest: Seq<u8>, reply: Seq<u8>)
    ensures
        signing_outcome(key, digest, reply) == Err::<u8, WalletError>(
            WalletError::ServiceUnavailable,
        ) <==> reply.len() != SIGNATURE_LEN,
        signing_outcome(key, digest, reply) == Err::<u8, WalletError>(
            WalletError::VerificationFailure,
        ) <==> reply.len() == SIGNATURE_LEN && !ecdsa_verifies(key, digest, reply),
        signing_outcome(key, digest, reply) == Err::<u8, WalletError>(
            WalletError::RecoveryIdNotFound,
        ) <==> reply.len() == SIGNATURE_LEN && ecdsa_verifies(key, digest, reply) && resolution(
            digest,
            reply,
            key,
        ).is_none(),
        signing_outcome(key, digest, reply) == Err::<u8, WalletError>(
            WalletError::XReducedRecoveryRejected,
        ) <==> reply.len() == SIGNATURE_LEN && ecdsa_verifies(key, digest, reply) && (resolution(
            digest,
            reply,
            key,
        ) == Some(2u8) || resolution(digest, reply, key) == Some(3u8)),
{
}

} // verus!
