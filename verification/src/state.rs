//! What the wallet service remembers between requests: its settings, the
//! root key of the signing service once it has been fetched, and the keys
//! derived from it so far.

use vstd::prelude::*;
use crate::address::{address_of, Address, ADDRESS_LEN};
use crate::bytes::{bytes_equal, copy_bytes};
use crate::derivation::{derive_public_key, derived_key_of};
use crate::ecdsa::{EcdsaPublicKey, KeyView};
use crate::error::WalletError;
use crate::signing::{EcdsaCurve, EcdsaKeyId};

verus! {

/// The chain that the wallet talks to.
#[derive(Clone, Copy, Debug, PartialEq, Eq, Structural)]
pub enum EthereumNetwork {
    Mainnet,
    Sepolia,
}

impl EthereumNetwork {
    /// The chain id of the network.
    pub open spec fn spec_chain_id(&self) -> u64 {
        match self {
            EthereumNetwork::Mainnet => 1,
            EthereumNetwork::Sepolia => 11155111,
        }
    }

    /// The chain id of the network.
    #[verifier::when_used_as_spec(spec_chain_id)]
    pub fn chain_id(&self) -> (id: u64)
        ensures
            id == self.spec_chain_id(),
    {
        match self {
            EthereumNetwork::Mainnet => 1,
            EthereumNetwork::Sepolia => 11155111,
        }
    }
}

impl Default for EthereumNetwork {
    fn default() -> (network: Self)
        ensures
            network == EthereumNetwork::Sepolia,
    {
        EthereumNetwork::Sepolia
    }
}

/// The keys of the signing service that the wallet can be set up with.
#[derive(Clone, Copy, Debug, PartialEq, Eq, Structural)]
pub enum EcdsaKeyName {
    TestKeyLocalDevelopment,
    TestKey1,
    ProductionKey1,
}

impl Default for EcdsaKeyName {
    fn default() -> (name: Self)
        ensures
            name == EcdsaKeyName::TestKeyLocalDevelopment,
    {
        EcdsaKeyName::TestKeyLocalDevelopment
    }
}

impl EcdsaKeyName {
    /// The name under which the signing service knows the key.
    pub open spec fn service_name(&self) -> Seq<char> {
        match self {
            EcdsaKeyName::TestKeyLocalDevelopment => "dfx_test_key"@,
            EcdsaKeyName::TestKey1 => "test_key_1"@,
            EcdsaKeyName::ProductionKey1 => "key_1"@,
        }
    }

    /// The identifier of the key for the signing service.
    pub fn key_id(&self) -> (id: EcdsaKeyId)
        ensures
            id.curve == EcdsaCurve::Secp256k1,
            id.name@ == self.service_name(),
    {
        let name = match self {
            EcdsaKeyName::TestKeyLocalDevelopment => "dfx_test_key",
            EcdsaKeyName::TestKey1 => "test_key_1",
            EcdsaKeyName::ProductionKey1 => "key_1",
        };
        EcdsaKeyId { curve: EcdsaCurve::Secp256k1, name: name.to_owned() }
    }
}

/// The settings that the service is started with; what is left out takes
/// its default.
#[derive(Clone, Copy, Debug, PartialEq, Eq, Structural)]
pub struct InitArg {
    pub ethereum_network: Option<EthereumNetwork>,
    pub ecdsa_key_name: Option<EcdsaKeyName>,
}

/// The providers that can be asked about the main network.
#[derive(Clone, Copy, Debug, PartialEq, Eq, Structural)]
pub enum EthMainnetService {
    Alchemy,
    BlockPi,
    Cloudflare,
    PublicNode,
    Ankr,
}

/// The providers that can be asked about the Sepolia test network.
#[derive(Clone, Copy, Debug, PartialEq, Eq, Structural)]
pub enum EthSepoliaService {
    Alchemy,
    BlockPi,
    PublicNode,
    Ankr,
}

/// Which providers a query goes to: those named, or the default set of the
/// network where none is named.
#[derive(Debug)]
pub enum RpcServices {
    EthSepolia(Option<Vec<EthSepoliaService>>),
    EthMainnet(Option<Vec<EthMainnetService>>),
}

/// The state of the service.
#[derive(Debug)]
pub struct State {
    ethereum_network: EthereumNetwork,
    ecdsa_key_name: EcdsaKeyName,
    ecdsa_public_key: Option<EcdsaPublicKey>,
    derived_keys: Vec<(Vec<u8>, EcdsaPublicKey)>,
}

impl State {
    /// No identity is remembered twice, and every remembered key is the one
    /// that derivation from the root key gives for its identity. Without a
    /// root key nothing is remembered.
    #[verifier::type_invariant]
    spec fn well_formed(&self) -> bool {
        &&& forall|i: int, j: int|
            0 <= i < j < self.derived_keys@.len() ==> self.derived_keys@[i].0@
                != self.derived_keys@[j].0@
        &&& match self.ecdsa_public_key {
            None => self.derived_keys@.len() == 0,
            Some(root) => forall|i: int|
                0 <= i < self.derived_keys@.len() ==> derived_key_of(
                    root.sec1(),
                    root.code(),
                    (#[trigger] self.derived_keys@[i]).0@,
                ) == Some((self.derived_keys@[i].1.sec1(), self.derived_keys@[i].1.code())),
        }
    }

    /// The network that the service was set up with.
    pub closed spec fn network(&self) -> EthereumNetwork {
        self.ethereum_network
    }

    /// The key name that the service was set up with.
    pub closed spec fn key_name(&self) -> EcdsaKeyName {
        self.ecdsa_key_name
    }

    /// The root key and its chain code, once fetched.
    pub closed spec fn root(&self) -> Option<KeyView> {
        match self.ecdsa_public_key {
            None => None,
            Some(root) => Some((root.sec1(), root.code())),
        }
    }

    /// The key and chain code that the state answers for an identity:
    /// what derivation from the root key gives, whether or not it is
    /// remembered already.
    pub open spec fn key_for(&self, identity: Seq<u8>) -> Option<KeyView> {
        match self.root() {
            None => None,
            Some(r) => derived_key_of(r.0, r.1, identity),
        }
    }

    /// The address that the state answers for an identity: that of the
    /// identity's key.
    pub open spec fn address_for(&self, identity: Seq<u8>) -> Option<Seq<u8>> {
        match self.key_for(identity) {
            None => None,
            Some(key) => Some(address_of(key.0)),
        }
    }

    /// Whether a key is remembered for the identity.
    pub closed spec fn remembers(&self, identity: Seq<u8>) -> bool {
        exists|i: int| 0 <= i < self.derived_keys@.len() && self.derived_keys@[i].0@ == identity
    }

    /// The identities for which a key is remembered.
    pub open spec fn remembered(&self) -> Set<Seq<u8>> {
        Set::new(|identity: Seq<u8>| self.remembers(identity))
    }

    /// The state for the given settings: no root key yet, nothing
    /// remembered.
    pub open spec fn initial(&self, init_arg: InitArg) -> bool {
        &&& self.network() == match init_arg.ethereum_network {
            Some(n) => n,
            None => EthereumNetwork::Sepolia,
        }
        &&& self.key_name() == match init_arg.ecdsa_key_name {
            Some(n) => n,
            None => EcdsaKeyName::TestKeyLocalDevelopment,
        }
        &&& self.root().is_none()
        &&& self.remembered() == Set::<Seq<u8>>::empty()
    }

    /// The identifier of the signing service's key.
    pub fn ecdsa_key_id(&self) -> (id: EcdsaKeyId)
        ensures
            id.curve == EcdsaCurve::Secp256k1,
            id.name@ == self.key_name().service_name(),
    {
        self.ecdsa_key_name.key_id()
    }

    /// The network that the service was set up with.
    pub fn ethereum_network(&self) -> (network: EthereumNetwork)
        ensures
            network == self.network(),
    {
        self.ethereum_network
    }

    /// All default providers of the network.
    pub fn evm_rpc_services(&self) -> (services: RpcServices)
        ensures
            services == match self.network() {
                EthereumNetwork::Mainnet => RpcServices::EthMainnet(None),
                EthereumNetwork::Sepolia => RpcServices::EthSepolia(None),
            },
    {
        match self.ethereum_network {
            EthereumNetwork::Mainnet => RpcServices::EthMainnet(None),
            EthereumNetwork::Sepolia => RpcServices::EthSepolia(None),
        }
    }

    /// One provider of the network, for queries whose answers differ from
    /// provider to provider.
    pub fn single_evm_rpc_service(&self) -> (services: RpcServices)
        ensures
            match self.network() {
                EthereumNetwork::Mainnet => services matches RpcServices::EthMainnet(Some(list))
                    && list@ == seq![EthMainnetService::Ankr],
                EthereumNetwork::Sepolia => services matches RpcServices::EthSepolia(Some(list))
                    && list@ == seq![EthSepoliaService::Ankr],
            },
    {
        match self.ethereum_network {
            EthereumNetwork::Mainnet => {
                let mut list: Vec<EthMainnetService> = Vec::new();
                list.push(EthMainnetService::Ankr);
                assert(list@ =~= seq![EthMainnetService::Ankr]);
                RpcServices::EthMainnet(Some(list))
            },
            EthereumNetwork::Sepolia => {
                let mut list: Vec<EthSepoliaService> = Vec::new();
                list.push(EthSepoliaService::Ankr);
                assert(list@ =~= seq![EthSepoliaService::Ankr]);
                RpcServices::EthSepolia(Some(list))
            },
        }
    }

    /// Where the key of an identity is remembered, if it is.
    fn position_of(&self, identity: &[u8]) -> (found: Option<usize>)
        ensures
            match found {
                Some(i) => i < self.derived_keys@.len() && self.derived_keys@[i as int].0@
                    == identity@,
                None => !self.remembers(identity@),
            },
    {
        let mut i: usize = 0;
        while i < self.derived_keys.len()
            invariant
                i <= self.derived_keys@.len(),
                forall|j: int| 0 <= j < i ==> self.derived_keys@[j].0@ != identity@,
            decreases self.derived_keys@.len() - i,
        {
            if bytes_equal(self.derived_keys[i].0.as_slice(), identity) {
                return Some(i);
            }
            i += 1;
        }
        None
    }

    /// Whether a key is remembered for the identity. A remembered identity
    /// has a key: the one that derivation from the root key gives.
    pub fn is_remembered(&self, identity: &[u8]) -> (remembered: bool)
        ensures
            remembered == self.remembered().contains(identity@),
            remembered ==> self.key_for(identity@).is_some(),
    {
        proof {
            use_type_invariant(self);
        }
        match self.position_of(identity) {
            Some(i) => {
                assert(self.remembers(identity@));
                assert(self.derived_keys@[i as int].0@ == identity@);
                true
            },
            None => false,
        }
    }

    /// The root key, if it has been fetched.
    pub fn ecdsa_public_key(&self) -> (root: Option<EcdsaPublicKey>)
        ensures
            self.root() == match root {
                None => None::<KeyView>,
                Some(k) => Some((k.sec1(), k.code())),
            },
    {
        match &self.ecdsa_public_key {
            None => None,
            Some(k) => Some(k.clone()),
        }
    }

    /// Remembers the root key of the signing service. The first key that
    /// was remembered stays: a later one changes nothing.
    pub fn set_ecdsa_public_key(&mut self, key: EcdsaPublicKey)
        ensures
            final(self).root() == if old(self).root().is_some() {
                old(self).root()
            } else {
                Some((key.sec1(), key.code()))
            },
            final(self).network() == old(self).network(),
            final(self).key_name() == old(self).key_name(),
            final(self).remembered() == old(self).remembered(),
    {
        proof {
            use_type_invariant(&*self);
        }
        if self.ecdsa_public_key.is_none() {
            self.ecdsa_public_key = Some(key);
        }
        assert(final(self).remembered() =~= old(self).remembered());
    }

    /// The key of an identity: the remembered one where there is one, else
    /// the one derived from the root key, which is then remembered.
    ///
    /// Either way the answer is what derivation from the root key gives for
    /// the identity, so that asking twice gives the same key twice. Without
    /// a root key, and where derivation fails, the answer is
    /// `ServiceUnavailable` and nothing is remembered.
    pub fn derived_public_key(&mut self, identity: &[u8]) -> (key: Result<
        EcdsaPublicKey,
        WalletError,
    >)
        ensures
            final(self).root() == old(self).root(),
            final(self).network() == old(self).network(),
            final(self).key_name() == old(self).key_name(),
            key is Ok == old(self).key_for(identity@).is_some(),
            key matches Ok(k) ==> {
                &&& old(self).key_for(identity@) == Some((k.sec1(), k.code()))
                &&& final(self).remembered() == old(self).remembered().insert(identity@)
            },
            key matches Err(e) ==> e == WalletError::ServiceUnavailable && final(self).remembered()
                == old(self).remembered(),
    {
        proof {
            use_type_invariant(&*self);
        }
        match self.position_of(identity) {
            Some(i) => {
                assert(self.remembers(identity@));
                assert(self.remembered() =~= self.remembered().insert(identity@));
                Ok(self.derived_keys[i].1.clone())
            },
            None => {
                let derived = match &self.ecdsa_public_key {
                    None => Err(WalletError::ServiceUnavailable),
                    Some(root) => derive_public_key(identity, root),
                };
                match derived {
                    Ok(k) => {
                        let entry = (copy_bytes(identity), k.clone());
                        let ghost before = self.derived_keys@;
                        let mut keys: Vec<(Vec<u8>, EcdsaPublicKey)> = Vec::new();
                        std::mem::swap(&mut self.derived_keys, &mut keys);
                        keys.push(entry);
                        std::mem::swap(&mut self.derived_keys, &mut keys);
                        assert(forall|i: int|
                            0 <= i < before.len() ==> self.derived_keys@[i] == before[i]);
                        assert(self.derived_keys@[before.len() as int].0@ == identity@);
                        assert(final(self).remembered() =~= old(self).remembered().insert(
                            identity@,
                        )) by {
                            assert forall|id: Seq<u8>|
                                final(self).remembers(id) == (old(self).remembers(id) || id
                                    == identity@) by {
                                if old(self).remembers(id) {
                                    let w = choose|i: int|
                                        0 <= i < before.len() && before[i].0@ == id;
                                    assert(self.derived_keys@[w].0@ == id);
                                }
                                if id == identity@ {
                                    assert(self.derived_keys@[before.len() as int].0@ == id);
                                }
                            }
                        }
                        Ok(k)
                    },
                    Err(e) => Err(e),
                }
            },
        }
    }

    /// The address of an identity: that of the identity's key, which is
    /// taken from the remembered keys or derived and remembered as
    /// [`State::derived_public_key`] does.
    pub fn derive_address(&mut self, identity: &[u8]) -> (address: Result<Address, WalletError>)
        ensures
            final(self).root() == old(self).root(),
            final(self).network() == old(self).network(),
            final(self).key_name() == old(self).key_name(),
            match old(self).address_for(identity@) {
                Some(a) => address matches Ok(found) && found@ == a && a.len() == ADDRESS_LEN
                    && final(self).remembered() == old(self).remembered().insert(identity@),
                None => address matches Err(e) && e == WalletError::ServiceUnavailable
                    && final(self).remembered() == old(self).remembered(),
            },
    {
        match self.derived_public_key(identity) {
            Ok(key) => Ok(Address::from_public_key(&key)),
            Err(e) => Err(e),
        }
    }
}

impl From<InitArg> for State {
    /// The state that a service starts in.
    fn from(init_arg: InitArg) -> (state: Self)
        ensures
            state.initial(init_arg),
    {
        let ethereum_network = match init_arg.ethereum_network {
            Some(n) => n,
            None => EthereumNetwork::default(),
        };
        let ecdsa_key_name = match init_arg.ecdsa_key_name {
            Some(n) => n,
            None => EcdsaKeyName::default(),
        };
        let state = State {
            ethereum_network,
            ecdsa_key_name,
            ecdsa_public_key: None,
            derived_keys: Vec::new(),
        };
        assert(state.remembered() =~= Set::<Seq<u8>>::empty());
        state
    }
}

/// What `from` returns is stated by its own `ensures`; no second
/// description is given here.
impl vstd::std_specs::convert::FromSpecImpl<InitArg> for State {
    open spec fn obeys_from_spec() -> bool {
        false
    }

    open spec fn from_spec(init_arg: InitArg) -> Self {
        arbitrary()
    }
}

impl Default for State {
    /// The state that a service starts in where no setting is given.
    fn default() -> (state: Self)
        ensures
            state.initial(InitArg { ethereum_network: None, ecdsa_key_name: None }),
    {
        State::from(InitArg { ethereum_network: None, ecdsa_key_name: None })
    }
}

/// The state that a service starts in with the given settings.
pub fn init_state(init_arg: InitArg) -> (state: State)
    ensures
        state.initial(init_arg),
{
    State::from(init_arg)
}

/// Hands the state to a reader and returns what the reader made of it.
pub fn read_state<R>(state: &State, f: impl FnOnce(&State) -> R) -> (result: R)
    requires
        f.requires((state,)),
    ensures
        f.ensures((state,), result),
{
    f(state)
}

/// Hands the state to a writer and returns what the writer made of it.
pub fn mutate_state<F, R>(state: &mut State, f: F) -> (result: R) where F: FnOnce(&mut State) -> R
    requires
        forall|s: &mut State| *s == *old(state) ==> #[trigger] f.requires((s,)),
    ensures
        exists|s: &mut State|
            *s == *old(state) && *final(s) == *final(state) && #[trigger] f.ensures((s,), result),
{
    f(state)
}

/// Asking for the key of an identity again gives the same key, whatever
/// was asked in between and whatever is remembered by then: the answer
/// depends on the root key and the identity alone.
pub proof fn lemma_key_is_stable(before: State, after: State, identity: Seq<u8>)
    requires
        before.root() == after.root(),
    ensures
        before.key_for(identity) == after.key_for(identity),
        before.address_for(identity) == after.address_for(identity),
{
}

} // verus!
