//! What the grid service remembers between requests: the services it talks
//! to, and which token was minted for which square.

use vstd::prelude::*;
use candid::Principal;
use crate::string_map::StringMap;

verus! {

/// `candid::Principal`, the identity of a service. The registry only
/// keeps and returns such values.
#[verifier::external_type_specification]
#[verifier::external_body]
pub struct ExPrincipal(Principal);

/// The state of the grid service.
#[derive(Debug)]
pub struct Registry {
    dip721_canister_id: Option<Principal>,
    basic_bitcoin_canister_id: Option<Principal>,
    basic_ethereum_canister_id: Option<Principal>,
    geohash_to_token_id: StringMap<u64>,
}

/// The contents of a registry in the form in which they are put away
/// before an upgrade: the three services, then squares with their tokens.
pub type Snapshot = (Option<Principal>, Option<Principal>, Option<Principal>, Vec<(String, u64)>);

/// The map that a list of squares with their tokens stands for: a later
/// entry for a square replaces an earlier one.
pub open spec fn tokens_of(entries: Seq<(String, u64)>) -> Map<Seq<char>, u64>
    decreases entries.len(),
{
    if entries.len() == 0 {
        Map::empty()
    } else {
        tokens_of(entries.drop_last()).insert(entries.last().0@, entries.last().1)
    }
}

impl Registry {
    /// The token registry, once set.
    pub closed spec fn dip721(&self) -> Option<Principal> {
        self.dip721_canister_id
    }

    /// The bitcoin service, once set.
    pub closed spec fn bitcoin(&self) -> Option<Principal> {
        self.basic_bitcoin_canister_id
    }

    /// The wallet service, once set.
    pub closed spec fn ethereum(&self) -> Option<Principal> {
        self.basic_ethereum_canister_id
    }

    /// The token of each square that has one.
    pub closed spec fn tokens(&self) -> Map<Seq<char>, u64> {
        self.geohash_to_token_id@
    }

    /// A registry that knows no service and no token.
    pub fn new() -> (registry: Self)
        ensures
            registry.dip721().is_none(),
            registry.bitcoin().is_none(),
            registry.ethereum().is_none(),
            registry.tokens() == Map::<Seq<char>, u64>::empty(),
    {
        Registry {
            dip721_canister_id: None,
            basic_bitcoin_canister_id: None,
            basic_ethereum_canister_id: None,
            geohash_to_token_id: StringMap::new(),
        }
    }

    /// The token registry, if it is set.
    pub fn dip721_canister_id(&self) -> (id: Option<Principal>)
        ensures
            id == self.dip721(),
    {
        self.dip721_canister_id
    }

    /// The bitcoin service, if it is set.
    pub fn bitcoin_canister_id(&self) -> (id: Option<Principal>)
        ensures
            id == self.bitcoin(),
    {
        self.basic_bitcoin_canister_id
    }

    /// The wallet service, if it is set.
    pub fn ethereum_canister_id(&self) -> (id: Option<Principal>)
        ensures
            id == self.ethereum(),
    {
        self.basic_ethereum_canister_id
    }

    /// Forgets every token, as a fresh start of the service does; the
    /// services stay.
    pub fn clear_tokens(&mut self)
        ensures
            final(self).tokens() == Map::<Seq<char>, u64>::empty(),
            final(self).dip721() == old(self).dip721(),
            final(self).bitcoin() == old(self).bitcoin(),
            final(self).ethereum() == old(self).ethereum(),
    {
        self.geohash_to_token_id = StringMap::new();
    }

    /// The contents, to be put away before an upgrade.
    pub fn snapshot(&self) -> (saved: Snapshot)
        ensures
            saved.0 == self.dip721(),
            saved.1 == self.bitcoin(),
            saved.2 == self.ethereum(),
            tokens_of(saved.3@) == self.tokens(),
    {
        let mut entries: Vec<(String, u64)> = Vec::new();
        let mut i: usize = 0;
        proof {
            use_type_invariant(&self.geohash_to_token_id);
            assert(tokens_of(entries@) =~= Map::<Seq<char>, u64>::empty());
        }
        while i < self.geohash_to_token_id.len()
            invariant
                self.geohash_to_token_id.wf(),
                i <= self.geohash_to_token_id.entries().len(),
                entries@.len() == i,
                forall|j: int|
                    0 <= j < i ==> entries@[j].0@ == self.geohash_to_token_id.entries()[j].0@
                        && entries@[j].1 == self.geohash_to_token_id.entries()[j].1,
                forall|k: Seq<char>| #[trigger]
                    tokens_of(entries@).contains_key(k) <==> exists|j: int|
                        0 <= j < i && self.geohash_to_token_id.holds_at(k, j),
                forall|k: Seq<char>, j: int|
                    0 <= j < i && #[trigger] self.geohash_to_token_id.holds_at(k, j) ==> tokens_of(
                        entries@,
                    )[k] == self.geohash_to_token_id.entries()[j].1,
            decreases self.geohash_to_token_id.entries().len() - i,
        {
            let pair = self.geohash_to_token_id.entry(i);
            let ghost before = entries@;
            entries.push((pair.0.clone(), pair.1));
            proof {
                assert(entries@.drop_last() =~= before);
                let map = self.geohash_to_token_id;
                assert forall|k: Seq<char>| #[trigger]
                    tokens_of(entries@).contains_key(k) <==> exists|j: int|
                        0 <= j < i + 1 && map.holds_at(k, j) by {
                    if tokens_of(entries@).contains_key(k) {
                        if k == pair.0@ {
                            assert(map.holds_at(k, i as int));
                        } else {
                            assert(tokens_of(before).contains_key(k));
                            let j = choose|j: int| 0 <= j < i && map.holds_at(k, j);
                            assert(0 <= j < i + 1 && map.holds_at(k, j));
                        }
                    }
                    if exists|j: int| 0 <= j < i + 1 && map.holds_at(k, j) {
                        let j = choose|j: int| 0 <= j < i + 1 && map.holds_at(k, j);
                        if j < i {
                            assert(0 <= j < i && map.holds_at(k, j));
                            assert(tokens_of(before).contains_key(k));
                        }
                    }
                }
                assert forall|k: Seq<char>, j: int|
                    0 <= j < i + 1 && #[trigger] map.holds_at(k, j) implies tokens_of(entries@)[k]
                    == map.entries()[j].1 by {
                    if j < i {
                        assert(map.entries()[j].0@ != map.entries()[i as int].0@);
                    }
                }
            }
            i += 1;
        }
        proof {
            let map = self.geohash_to_token_id;
            assert forall|k: Seq<char>| #[trigger]
                tokens_of(entries@).contains_key(k) == map@.contains_key(k) by {
                if map@.contains_key(k) {
                    let j = choose|j: int| map.holds_at(k, j);
                    assert(0 <= j < i && map.holds_at(k, j));
                }
            }
            assert forall|k: Seq<char>| #[trigger]
                map@.contains_key(k) implies tokens_of(entries@)[k] == map@[k] by {
                let j = choose|j: int| map.holds_at(k, j);
                map.lemma_value_at(k, j);
            }
            assert(tokens_of(entries@) =~= self.tokens());
        }
        (
            self.dip721_canister_id,
            self.basic_bitcoin_canister_id,
            self.basic_ethereum_canister_id,
            entries,
        )
    }

    /// The registry with the contents that were put away before an
    /// upgrade.
    pub fn restore(saved: Snapshot) -> (registry: Self)
        ensures
            registry.dip721() == saved.0,
            registry.bitcoin() == saved.1,
            registry.ethereum() == saved.2,
            registry.tokens() == tokens_of(saved.3@),
    {
        let (dip721_canister_id, basic_bitcoin_canister_id, basic_ethereum_canister_id, entries) =
            saved;
        let mut tokens: StringMap<u64> = StringMap::new();
        let mut i: usize = 0;
        proof {
            assert(entries@.take(0) =~= Seq::<(String, u64)>::empty());
        }
        while i < entries.len()
            invariant
                i <= entries@.len(),
                tokens@ == tokens_of(entries@.take(i as int)),
            decreases entries@.len() - i,
        {
            let geohash = entries[i].0.clone();
            let token_id = entries[i].1;
            tokens.insert(geohash, token_id);
            proof {
                assert(entries@.take(i + 1).drop_last() =~= entries@.take(i as int));
            }
            i += 1;
        }
        proof {
            assert(entries@.take(entries@.len() as int) =~= entries@);
        }
        Registry {
            dip721_canister_id,
            basic_bitcoin_canister_id,
            basic_ethereum_canister_id,
            geohash_to_token_id: tokens,
        }
    }
}

/// Sets, or with `None` forgets, the token registry.
pub fn set_dip721_canister_id(registry: &mut Registry, dip721_canister_id: Option<Principal>)
    ensures
        final(registry).dip721() == dip721_canister_id,
        final(registry).bitcoin() == old(registry).bitcoin(),
        final(registry).ethereum() == old(registry).ethereum(),
        final(registry).tokens() == old(registry).tokens(),
{
    registry.dip721_canister_id = dip721_canister_id;
}

/// The token registry. It must have been set.
pub fn get_dip721_canister_id(registry: &Registry) -> (id: Principal)
    requires
        registry.dip721().is_some(),
    ensures
        Some(id) == registry.dip721(),
{
    match registry.dip721_canister_id {
        Some(id) => id,
        None => vstd::pervasive::unreached(),
    }
}

/// Sets, or with `None` forgets, the bitcoin service.
pub fn set_bitcoin_canister_id(registry: &mut Registry, bitcoin_canister_id: Option<Principal>)
    ensures
        final(registry).bitcoin() == bitcoin_canister_id,
        final(registry).dip721() == old(registry).dip721(),
        final(registry).ethereum() == old(registry).ethereum(),
        final(registry).tokens() == old(registry).tokens(),
{
    registry.basic_bitcoin_canister_id = bitcoin_canister_id;
}

/// The bitcoin service. It must have been set.
pub fn get_bitcoin_canister_id(registry: &Registry) -> (id: Principal)
    requires
        registry.bitcoin().is_some(),
    ensures
        Some(id) == registry.bitcoin(),
{
    match registry.basic_bitcoin_canister_id {
        Some(id) => id,
        None => vstd::pervasive::unreached(),
    }
}

/// Sets, or with `None` forgets, the wallet service.
pub fn set_ethereum_canister_id(registry: &mut Registry, ethereum_canister_id: Option<Principal>)
    ensures
        final(registry).ethereum() == ethereum_canister_id,
        final(registry).dip721() == old(registry).dip721(),
        final(registry).bitcoin() == old(registry).bitcoin(),
        final(registry).tokens() == old(registry).tokens(),
{
    registry.basic_ethereum_canister_id = ethereum_canister_id;
}

/// The wallet service. It must have been set.
pub fn get_ethereum_canister_id(registry: &Registry) -> (id: Principal)
    requires
        registry.ethereum().is_some(),
    ensures
        Some(id) == registry.ethereum(),
{
    match registry.basic_ethereum_canister_id {
        Some(id) => id,
        None => vstd::pervasive::unreached(),
    }
}

/// Remembers the token of a square; a token remembered for it before is
/// replaced.
pub fn update_geohash_to_token_id(registry: &mut Registry, geohash: String, token_id: u64)
    ensures
        final(registry).tokens() == old(registry).tokens().insert(geohash@, token_id),
        final(registry).dip721() == old(registry).dip721(),
        final(registry).bitcoin() == old(registry).bitcoin(),
        final(registry).ethereum() == old(registry).ethereum(),
{
    registry.geohash_to_token_id.insert(geohash, token_id);
}

/// The token of a square, if one is remembered.
pub fn get_token_id_by_geohash(registry: &Registry, geohash: &str) -> (token_id: Option<u64>)
    ensures
        token_id == if registry.tokens().contains_key(geohash@) {
            Some(registry.tokens()[geohash@])
        } else {
            None
        },
{
    match registry.geohash_to_token_id.get(geohash) {
        Some(token_id) => Some(*token_id),
        None => None,
    }
}

} // verus!
