//! The records that describe a square of the grid and the token minted for
//! it.

use vstd::prelude::*;
use candid::Principal;

verus! {

/// What a part of a token's metadata is for.
#[derive(Clone, Copy, Debug, PartialEq, Eq, Structural)]
pub enum MetadataPurpose {
    Preview,
    Rendered,
}

/// A value in a token's metadata.
#[derive(Debug)]
pub enum MetadataVal {
    TextContent(String),
    BlobContent(Vec<u8>),
    NatContent(u128),
    Nat8Content(u8),
    Nat16Content(u16),
    Nat32Content(u32),
    Nat64Content(u64),
}

/// A value in a token's metadata, as plain mathematical data.
pub enum MetadataValView {
    Text(Seq<char>),
    Blob(Seq<u8>),
    Nat(nat),
    Nat8(nat),
    Nat16(nat),
    Nat32(nat),
    Nat64(nat),
}

impl View for MetadataVal {
    type V = MetadataValView;

    open spec fn view(&self) -> MetadataValView {
        match self {
            MetadataVal::TextContent(t) => MetadataValView::Text(t@),
            MetadataVal::BlobContent(b) => MetadataValView::Blob(b@),
            MetadataVal::NatContent(n) => MetadataValView::Nat(*n as nat),
            MetadataVal::Nat8Content(n) => MetadataValView::Nat8(*n as nat),
            MetadataVal::Nat16Content(n) => MetadataValView::Nat16(*n as nat),
            MetadataVal::Nat32Content(n) => MetadataValView::Nat32(*n as nat),
            MetadataVal::Nat64Content(n) => MetadataValView::Nat64(*n as nat),
        }
    }
}

impl Clone for MetadataVal {
    fn clone(&self) -> (copy: Self)
        ensures
            copy@ == self@,
    {
        match self {
            MetadataVal::TextContent(t) => MetadataVal::TextContent(t.clone()),
            MetadataVal::BlobContent(b) => MetadataVal::BlobContent(
                crate::bytes::copy_bytes(b.as_slice()),
            ),
            MetadataVal::NatContent(n) => MetadataVal::NatContent(*n),
            MetadataVal::Nat8Content(n) => MetadataVal::Nat8Content(*n),
            MetadataVal::Nat16Content(n) => MetadataVal::Nat16Content(*n),
            MetadataVal::Nat32Content(n) => MetadataVal::Nat32Content(*n),
            MetadataVal::Nat64Content(n) => MetadataVal::Nat64Content(*n),
        }
    }
}

/// A key with its value.
#[derive(Debug)]
pub struct MetadataKeyVal {
    pub key: String,
    pub val: MetadataVal,
}

impl View for MetadataKeyVal {
    type V = (Seq<char>, MetadataValView);

    open spec fn view(&self) -> (Seq<char>, MetadataValView) {
        (self.key@, self.val@)
    }
}

impl Clone for MetadataKeyVal {
    fn clone(&self) -> (copy: Self)
        ensures
            copy@ == self@,
    {
        MetadataKeyVal { key: self.key.clone(), val: self.val.clone() }
    }
}

/// The keys with their values that a list of pairs holds, in order.
pub open spec fn pairs_view(pairs: Seq<MetadataKeyVal>) -> Seq<(Seq<char>, MetadataValView)> {
    Seq::new(pairs.len(), |i: int| pairs[i]@)
}

/// Whether no key occurs twice in a list of pairs.
pub open spec fn keys_are_distinct(pairs: Seq<MetadataKeyVal>) -> bool {
    forall|i: int, j: int| 0 <= i < j < pairs.len() ==> pairs[i].key@ != pairs[j].key@
}

/// A part of a token's metadata as the token registry keeps it: each key
/// has one value.
#[derive(Debug)]
pub struct MetadataPart {
    pub purpose: MetadataPurpose,
    pub key_val_data: Vec<MetadataKeyVal>,
    pub data: Vec<u8>,
}

impl MetadataPart {
    /// Each key has one value.
    pub open spec fn wf(&self) -> bool {
        keys_are_distinct(self.key_val_data@)
    }
}

/// A part of a token's metadata as it is handed out: a list of keys with
/// their values.
#[derive(Debug)]
pub struct MetadataPartLookup {
    pub purpose: MetadataPurpose,
    pub key_val_data: Vec<MetadataKeyVal>,
    pub data: Vec<u8>,
}

/// What both kinds of part hold: the purpose, the pairs and the blob.
pub type PartView = (MetadataPurpose, Seq<(Seq<char>, MetadataValView)>, Seq<u8>);

impl View for MetadataPart {
    type V = PartView;

    open spec fn view(&self) -> PartView {
        (self.purpose, pairs_view(self.key_val_data@), self.data@)
    }
}

impl View for MetadataPartLookup {
    type V = PartView;

    open spec fn view(&self) -> PartView {
        (self.purpose, pairs_view(self.key_val_data@), self.data@)
    }
}

/// The metadata of a token as the registry keeps it.
pub type MetadataDesc = Vec<MetadataPart>;

/// The metadata of a token as it is handed out.
pub type MetadataLookupDesc = Vec<MetadataPartLookup>;

/// Why the token registry turned a request down.
#[derive(Clone, Copy, Debug, PartialEq, Eq, Structural)]
pub enum ApiError {
    Unauthorized,
    InvalidTokenId,
    ZeroAddress,
    Other,
}

/// The token registry's answer to a request for metadata.
#[derive(Debug)]
pub enum MetadataResult {
    Success(MetadataDesc),
    Failure(ApiError),
}

/// The token registry's answer to a request to mint.
#[derive(Clone, Copy, Debug, PartialEq, Eq, Structural)]
pub enum MintReceipt {
    Success { token_id: u64, id: u128 },
    Failure(ApiError),
}

/// A successful mint: the token and the transaction that made it.
#[derive(Clone, Copy, Debug, PartialEq, Eq, Structural)]
pub struct MintResult {
    pub token_id: u64,
    pub id: u128,
}

/// The addresses that belong to a square, as text.
#[derive(Debug)]
pub struct Wallet {
    pub ether: String,
    pub bitcoin: String,
}

impl Clone for Wallet {
    fn clone(&self) -> (copy: Self)
        ensures
            copy.ether@ == self.ether@,
            copy.bitcoin@ == self.bitcoin@,
    {
        Wallet { ether: self.ether.clone(), bitcoin: self.bitcoin.clone() }
    }
}

/// What a square's token is minted with.
#[derive(Debug)]
pub struct SquareProperties {
    pub geohash: String,
    pub metadata: String,
    pub wallet: Wallet,
}

impl Clone for SquareProperties {
    fn clone(&self) -> (copy: Self)
        ensures
            copy.geohash@ == self.geohash@,
            copy.metadata@ == self.metadata@,
            copy.wallet.ether@ == self.wallet.ether@,
            copy.wallet.bitcoin@ == self.wallet.bitcoin@,
    {
        SquareProperties {
            geohash: self.geohash.clone(),
            metadata: self.metadata.clone(),
            wallet: self.wallet.clone(),
        }
    }
}

/// A token: its owner, its number, its metadata and its content.
#[derive(Debug)]
pub struct Nft {
    pub owner: Principal,
    pub token_id: u64,
    pub metadata: MetadataLookupDesc,
    pub content: Vec<u8>,
}

/// A request for the address that belongs to a square, by the service to
/// ask and the square's geohash.
#[derive(Debug)]
pub struct GetEthereumAddressInput {
    pub canister_id: Principal,
    pub geohash: String,
}

} // verus!
