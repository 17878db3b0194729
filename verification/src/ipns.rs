//! Names under which the figures of a square are published, and the
//! figures themselves.

use vstd::prelude::*;
use vstd::string::{StringExecFns, StringSliceAdditionalSpecFns};
use crate::string_map::StringMap;

verus! {

/// The SHA-256 hash of a byte string, 32 bytes.
pub uninterp spec fn sha256_digest(data: Seq<u8>) -> Seq<u8>;

/// The Base58 text of 32 bytes.
pub uninterp spec fn base58_text(data: Seq<u8>) -> Seq<char>;

/// Calls `sha2::Sha256::digest`. Nothing is proved of it: the contract only
/// gives the 32 bytes of the hash their name.
#[verifier::external_body]
fn sha256(data: &[u8]) -> (digest: [u8; 32])
    ensures
        digest@ == sha256_digest(data@),
{
    <sha2::Sha256 as sha2::Digest>::digest(data).into()
}

/// Calls `base58::ToBase58::to_base58` on 32 bytes. Nothing is proved of
/// it: the contract only gives the text its name.
#[verifier::external_body]
fn base58(data: &[u8; 32]) -> (text: String)
    ensures
        text@ == base58_text(data@),
{
    base58::ToBase58::to_base58(data.as_slice())
}

/// The name under which the figures of the square with the given geohash
/// are published.
pub open spec fn ipns_id_of(geohash: Seq<u8>) -> Seq<char> {
    "ipns-"@ + base58_text(sha256_digest(geohash))
}

/// The name under which the figures of a square are published: `ipns-`
/// and the Base58 text of the SHA-256 hash of the geohash.
pub fn generate_ipns_id(geohash: &str) -> (ipns_id: String)
    ensures
        ipns_id@ == ipns_id_of(geohash.spec_bytes()),
{
    let digest = sha256(geohash.as_bytes());
    ipns_id_with(base58(&digest).as_str())
}

/// The name that ends in the given text: `ipns-`, then the text.
pub fn ipns_id_with(encoded: &str) -> (ipns_id: String)
    ensures
        ipns_id@ == "ipns-"@ + encoded@,
{
    let mut ipns_id = "ipns-".to_owned();
    ipns_id.append(encoded);
    ipns_id
}

/// The figures that a square starts with.
pub open spec fn initial_metrics() -> Map<Seq<char>, u32> {
    Map::<Seq<char>, u32>::empty().insert("Rating"@, 0u32).insert(
        "Air quality index"@,
        50u32,
    ).insert("Crime rate"@, 50u32).insert("Car accident rate"@, 50u32)
}

/// The figures that a square starts with: a rating of 0, and 50 for air
/// quality, crime rate and car accident rate.
pub fn new_metrics() -> (metrics: StringMap<u32>)
    ensures
        metrics@ == initial_metrics(),
{
    let mut metrics: StringMap<u32> = StringMap::new();
    metrics.insert("Rating".to_owned(), 0);
    metrics.insert("Air quality index".to_owned(), 50);
    metrics.insert("Crime rate".to_owned(), 50);
    metrics.insert("Car accident rate".to_owned(), 50);
    metrics
}

/// The figures of every square, by the name under which they are
/// published.
#[derive(Debug)]
pub struct IpnsData {
    by_name: StringMap<StringMap<u32>>,
}

impl IpnsData {
    /// Whether figures are published under `name`.
    pub closed spec fn publishes(&self, name: Seq<char>) -> bool {
        self.by_name@.contains_key(name)
    }

    /// The figures published under `name`.
    pub closed spec fn figures(&self, name: Seq<char>) -> Map<Seq<char>, u32>
        recommends
            self.publishes(name),
    {
        self.by_name@[name]@
    }

    /// The names under which figures are published, in the order in which
    /// they were first published, each with its figures.
    pub closed spec fn published(&self) -> Seq<(String, StringMap<u32>)> {
        self.by_name.entries()
    }

    /// How many names figures are published under.
    pub fn len(&self) -> (n: usize)
        ensures
            n == self.published().len(),
    {
        self.by_name.len()
    }

    /// The name at place `i` with its figures.
    pub fn entry(&self, i: usize) -> (pair: &(String, StringMap<u32>))
        requires
            i < self.published().len(),
        ensures
            *pair == self.published()[i as int],
            self.publishes(pair.0@),
            self.figures(pair.0@) == pair.1@,
    {
        proof {
            use_type_invariant(&self.by_name);
            let k = self.by_name.entries()[i as int].0@;
            assert(self.by_name.holds_at(k, i as int));
            self.by_name.lemma_value_at(k, i as int);
        }
        self.by_name.entry(i)
    }

    /// Nothing published.
    pub fn new() -> (data: Self)
        ensures
            data.published().len() == 0,
            forall|name: Seq<char>| !data.publishes(name),
    {
        IpnsData { by_name: StringMap::new() }
    }

    /// Publishes the initial figures under `ipns_id`, in place of what was
    /// published there before.
    pub fn publish_initial(&mut self, ipns_id: String)
        ensures
            final(self).publishes(ipns_id@),
            final(self).figures(ipns_id@) == initial_metrics(),
            forall|name: Seq<char>|
                name != ipns_id@ ==> final(self).publishes(name) == old(self).publishes(name)
                    && final(self).figures(name) == old(self).figures(name),
    {
        self.by_name.insert(ipns_id, new_metrics());
    }

    /// The figures published under `name`, if there are any.
    pub fn get(&self, name: &str) -> (found: Option<&StringMap<u32>>)
        ensures
            match found {
                Some(metrics) => self.publishes(name@) && metrics@ == self.figures(name@),
                None => !self.publishes(name@),
            },
    {
        self.by_name.get(name)
    }
}

} // verus!
