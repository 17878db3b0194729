//! Minting the token of a square: the metadata that the token registry is
//! asked to mint it with, and what is made of the registry's receipt.

use vstd::prelude::*;
use crate::registry::{update_geohash_to_token_id, Registry};
use crate::types::{
    keys_are_distinct,
    pairs_view,
    ApiError,
    MetadataDesc,
    MetadataKeyVal,
    MetadataPart,
    MetadataPurpose,
    MetadataVal,
    MetadataValView,
    MintReceipt,
    SquareProperties,
};

verus! {

/// The pairs in the metadata of a square's token: its geohash and its two
/// addresses, as text.
pub open spec fn metadata_pairs(geohash: Seq<char>, bitcoin: Seq<char>, ether: Seq<char>) -> Seq<
    (Seq<char>, MetadataValView),
> {
    seq![
        ("geohash"@, MetadataValView::Text(geohash)),
        ("bitcoin_address"@, MetadataValView::Text(bitcoin)),
        ("ethereum_address"@, MetadataValView::Text(ether)),
    ]
}

/// The metadata that the token of a square is minted with: one part, to be
/// rendered, with the square's geohash and addresses and no blob.
pub fn create_metadata(properties: SquareProperties) -> (metadata: MetadataDesc)
    ensures
        metadata@.len() == 1,
        metadata@[0].wf(),
        metadata@[0]@ == (
            MetadataPurpose::Rendered,
            metadata_pairs(
                properties.geohash@,
                properties.wallet.bitcoin@,
                properties.wallet.ether@,
            ),
            Seq::<u8>::empty(),
        ),
{
    let mut key_val_data: Vec<MetadataKeyVal> = Vec::new();
    key_val_data.push(
        MetadataKeyVal {
            key: "geohash".to_owned(),
            val: MetadataVal::TextContent(properties.geohash),
        },
    );
    key_val_data.push(
        MetadataKeyVal {
            key: "bitcoin_address".to_owned(),
            val: MetadataVal::TextContent(properties.wallet.bitcoin),
        },
    );
    key_val_data.push(
        MetadataKeyVal {
            key: "ethereum_address".to_owned(),
            val: MetadataVal::TextContent(properties.wallet.ether),
        },
    );
    proof {
        reveal_strlit("geohash");
        reveal_strlit("bitcoin_address");
        reveal_strlit("ethereum_address");
        assert("geohash"@.len() == 7);
        assert("bitcoin_address"@.len() == 15);
        assert("ethereum_address"@.len() == 16);
        assert(keys_are_distinct(key_val_data@));
        assert(pairs_view(key_val_data@) =~= metadata_pairs(
            properties.geohash@,
            properties.wallet.bitcoin@,
            properties.wallet.ether@,
        ));
    }
    let mut metadata: Vec<MetadataPart> = Vec::new();
    metadata.push(
        MetadataPart { purpose: MetadataPurpose::Rendered, key_val_data, data: Vec::new() },
    );
    metadata
}

/// What is made of the token registry's receipt for the square with the
/// given geohash: a minted token is remembered for the square, and the
/// transaction and the token are returned; a refusal changes nothing and is
/// handed on.
pub fn record_mint(registry: &mut Registry, geohash: String, receipt: MintReceipt) -> (minted:
    Result<(u128, u64), ApiError>)
    ensures
        final(registry).dip721() == old(registry).dip721(),
        final(registry).bitcoin() == old(registry).bitcoin(),
        final(registry).ethereum() == old(registry).ethereum(),
        match receipt {
            MintReceipt::Success { token_id, id } => minted == Ok::<(u128, u64), ApiError>(
                (id, token_id),
            ) && final(registry).tokens() == old(registry).tokens().insert(geohash@, token_id),
            MintReceipt::Failure(e) => minted == Err::<(u128, u64), ApiError>(e)
                && final(registry).tokens() == old(registry).tokens(),
        },
{
    match receipt {
        MintReceipt::Success { token_id, id } => {
            update_geohash_to_token_id(registry, geohash, token_id);
            Ok((id, token_id))
        },
        MintReceipt::Failure(e) => Err(e),
    }
}

} // verus!
