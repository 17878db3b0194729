//! The wallet of one owner: the key derived for the owner's identity, the
//! address that belongs to it, and signatures made with it.

use vstd::prelude::*;
use crate::address::{address_of, Address, ADDRESS_LEN};
use crate::bytes::{bytes_equal, copy_bytes, segments};
use crate::derivation::{derivation_path, derivation_path_spec, derive_public_key, derived_key_of};
use crate::ecdsa::{ecdsa_verifies, EcdsaPublicKey};
use crate::error::WalletError;
use crate::recovery::{candidate_recovers, none_recovers_below, recovered_key, resolution, RecoveryId};
use crate::signing::{
    complete_signature,
    signing_outcome,
    EcdsaKeyId,
    SignWithEcdsaArgument,
};
use crate::state::State;

verus! {

/// An owner and the key derived for the owner.
#[derive(Debug)]
pub struct EthereumWallet {
    owner: Vec<u8>,
    derived_public_key: EcdsaPublicKey,
}

impl EthereumWallet {
    /// The identity of the owner.
    pub closed spec fn owner_id(&self) -> Seq<u8> {
        self.owner@
    }

    /// The wallet's key, in uncompressed SEC1.
    pub closed spec fn key(&self) -> Seq<u8> {
        self.derived_public_key.sec1()
    }

    /// The chain code of the wallet's key.
    pub closed spec fn key_code(&self) -> Seq<u8> {
        self.derived_public_key.code()
    }

    /// The wallet of `owner` under the root key `root`. A failed derivation
    /// is reported as `ServiceUnavailable`.
    pub fn new(owner: &[u8], root: &EcdsaPublicKey) -> (wallet: Result<Self, WalletError>)
        ensures
            match derived_key_of(root.sec1(), root.code(), owner@) {
                Some(material) => wallet matches Ok(w) && w.owner_id() == owner@ && (
                    w.key(),
                    w.key_code(),
                ) == material,
                None => wallet matches Err(e) && e == WalletError::ServiceUnavailable,
            },
    {
        match derive_public_key(owner, root) {
            Ok(derived_public_key) => Ok(
                EthereumWallet { owner: copy_bytes(owner), derived_public_key },
            ),
            Err(e) => Err(e),
        }
    }

    /// The wallet of `owner` under the root key that `state` holds, with
    /// the key taken from the keys that `state` remembers where it is
    /// among them, and remembered there from now on where it was not.
    pub fn open(state: &mut State, owner: &[u8]) -> (wallet: Result<Self, WalletError>)
        ensures
            final(state).root() == old(state).root(),
            final(state).network() == old(state).network(),
            final(state).key_name() == old(state).key_name(),
            wallet is Ok == old(state).key_for(owner@).is_some(),
            wallet matches Ok(w) ==> {
                &&& w.owner_id() == owner@
                &&& old(state).key_for(owner@) == Some((w.key(), w.key_code()))
                &&& final(state).remembered() == old(state).remembered().insert(owner@)
            },
            wallet matches Err(e) ==> e == WalletError::ServiceUnavailable
                && final(state).remembered() == old(state).remembered(),
    {
        match state.derived_public_key(owner) {
            Ok(derived_public_key) => Ok(
                EthereumWallet { owner: copy_bytes(owner), derived_public_key },
            ),
            Err(e) => Err(e),
        }
    }

    /// The wallet's key.
    pub fn as_ref(&self) -> (key: &EcdsaPublicKey)
        ensures
            key.sec1() == self.key(),
            key.code() == self.key_code(),
    {
        &self.derived_public_key
    }

    /// The identity of the owner.
    pub fn owner(&self) -> (owner: &[u8])
        ensures
            owner@ == self.owner_id(),
    {
        self.owner.as_slice()
    }

    /// Whether two wallets have the same owner and the same key.
    pub fn same_as(&self, other: &EthereumWallet) -> (same: bool)
        ensures
            same == (self.owner_id() == other.owner_id() && self.key() == other.key()
                && self.key_code() == other.key_code()),
    {
        bytes_equal(self.owner.as_slice(), other.owner.as_slice())
            && self.derived_public_key.same_as(&other.derived_public_key)
    }

    /// The wallet's address.
    pub fn ethereum_address(&self) -> (address: Address)
        ensures
            address@ == address_of(self.key()),
            address@.len() == ADDRESS_LEN,
    {
        Address::from_public_key(&self.derived_public_key)
    }

    /// What to ask of the threshold signer for a signature by this wallet
    /// over `message_hash`: the path is that of the owner, the same that
    /// the wallet's key was derived along.
    pub fn sign_request(&self, key_id: EcdsaKeyId, message_hash: &[u8; 32]) -> (request:
        SignWithEcdsaArgument)
        ensures
            request.message_hash@ == message_hash@,
            segments(request.derivation_path@) == derivation_path_spec(self.owner_id()),
            request.key_id == key_id,
    {
        SignWithEcdsaArgument {
            message_hash: copy_bytes(message_hash.as_slice()),
            derivation_path: derivation_path(self.owner.as_slice()),
            key_id,
        }
    }

    /// Turns the threshold signer's reply to [`EthereumWallet::sign_request`]
    /// into a recoverable signature by this wallet.
    ///
    /// A reply that has not 64 bytes is `ServiceUnavailable`; one that does
    /// not verify under the wallet's key is a `VerificationFailure`; one
    /// whose candidates all recover other keys is `RecoveryIdNotFound`; one
    /// whose recovery id is of the x-reduced kind is
    /// `XReducedRecoveryRejected`. What is returned verifies under the
    /// wallet's key and recovers exactly that key under the recovery id
    /// that comes with it.
    pub fn sign_with_ecdsa(&self, message_hash: &[u8; 32], reply: &[u8]) -> (signed: Result<
        ([u8; 64], RecoveryId),
        WalletError,
    >)
        ensures
            match signing_outcome(self.key(), message_hash@, reply@) {
                Ok(c) => signed matches Ok(pair) && pair.0@ == reply@ && pair.1.spec_to_byte()
                    == c,
                Err(e) => signed == Err::<([u8; 64], RecoveryId), WalletError>(e),
            },
            signed matches Ok(pair) ==> {
                &&& ecdsa_verifies(self.key(), message_hash@, pair.0@)
                &&& recovered_key(message_hash@, pair.0@, pair.1.spec_to_byte()) == Some(
                    self.key(),
                )
                &&& none_recovers_below(message_hash@, pair.0@, pair.1.spec_to_byte(), self.key())
                &&& !pair.1.spec_is_x_reduced()
            },
    {
        complete_signature(&self.derived_public_key, message_hash, reply)
    }

    /// Verifies `signature` over `message_hash` under the wallet's key and
    /// finds its recovery id.
    pub fn compute_recovery_id(&self, message_hash: &[u8], signature: &[u8]) -> (found: Result<
        RecoveryId,
        WalletError,
    >)
        ensures
            found == if !ecdsa_verifies(self.key(), message_hash@, signature@) {
                Err::<RecoveryId, WalletError>(WalletError::VerificationFailure)
            } else {
                match resolution(message_hash@, signature@, self.key()) {
                    None => Err::<RecoveryId, WalletError>(WalletError::RecoveryIdNotFound),
                    Some(c) => Ok::<RecoveryId, WalletError>(RecoveryId::of_byte(c)),
                }
            },
            found matches Ok(id) ==> candidate_recovers(
                message_hash@,
                signature@,
                id.spec_to_byte(),
                self.key(),
            ) && none_recovers_below(message_hash@, signature@, id.spec_to_byte(), self.key()),
    {
        crate::signing::compute_recovery_id(&self.derived_public_key, message_hash, signature)
    }
}

impl Clone for EthereumWallet {
    fn clone(&self) -> (copy: Self)
        ensures
            copy.owner_id() == self.owner_id(),
            copy.key() == self.key(),
            copy.key_code() == self.key_code(),
    {
        EthereumWallet {
            owner: copy_bytes(self.owner.as_slice()),
            derived_public_key: self.derived_public_key.clone(),
        }
    }
}

/// A signature that leaves the wallet of an owner verifies under the key
/// derived for that owner, and recovers exactly that key under the
/// recovery id that comes with it.
pub proof fn lemma_signature_recovers_derived_key(
    root: Seq<u8>,
    root_code: Seq<u8>,
    owner: Seq<u8>,
    digest: Seq<u8>,
    reply: Seq<u8>,
    candidate: u8,
)
    requires
        derived_key_of(root, root_code, owner).is_some(),
        signing_outcome(derived_key_of(root, root_code, owner).unwrap().0, digest, reply) == Ok::<
            u8,
            WalletError,
        >(candidate),
    ensures
        ecdsa_verifies(derived_key_of(root, root_code, owner).unwrap().0, digest, reply),
        recovered_key(digest, reply, candidate) == Some(
            derived_key_of(root, root_code, owner).unwrap().0,
        ),
{
}

} // verus!
