//! Looking up the token of a square: from the metadata that the token
//! registry keeps to the token as it is handed out, and the texts that are
//! read from it.

use vstd::prelude::*;
use candid::Principal;
use crate::types::{
    pairs_view,
    ApiError,
    MetadataDesc,
    MetadataKeyVal,
    MetadataLookupDesc,
    MetadataPart,
    MetadataPartLookup,
    MetadataResult,
    MetadataVal,
    MetadataValView,
    Nft,
    PartView,
};

verus! {

/// What the parts of a registry's metadata hold, in order.
pub open spec fn parts_view(parts: Seq<MetadataPart>) -> Seq<PartView> {
    Seq::new(parts.len(), |i: int| parts[i]@)
}

/// What the parts of handed-out metadata hold, in order.
pub open spec fn lookup_view(parts: Seq<MetadataPartLookup>) -> Seq<PartView> {
    Seq::new(parts.len(), |i: int| parts[i]@)
}

/// A copy of a list of pairs.
fn copy_pairs(pairs: &Vec<MetadataKeyVal>) -> (copy: Vec<MetadataKeyVal>)
    ensures
        pairs_view(copy@) == pairs_view(pairs@),
{
    let mut copy: Vec<MetadataKeyVal> = Vec::new();
    let mut i: usize = 0;
    while i < pairs.len()
        invariant
            i <= pairs@.len(),
            copy@.len() == i,
            forall|j: int| 0 <= j < i ==> copy@[j]@ == pairs@[j]@,
        decreases pairs@.len() - i,
    {
        copy.push(pairs[i].clone());
        i += 1;
    }
    assert(pairs_view(copy@) =~= pairs_view(pairs@));
    copy
}

/// The metadata as it is handed out: the same parts with the same pairs in
/// the same order.
pub fn to_lookup_desc(metadata: &MetadataDesc) -> (lookup: MetadataLookupDesc)
    ensures
        lookup_view(lookup@) == parts_view(metadata@),
{
    let mut lookup: Vec<MetadataPartLookup> = Vec::new();
    let mut i: usize = 0;
    while i < metadata.len()
        invariant
            i <= metadata@.len(),
            lookup@.len() == i,
            forall|j: int| 0 <= j < i ==> lookup@[j]@ == metadata@[j]@,
        decreases metadata@.len() - i,
    {
        let part = &metadata[i];
        lookup.push(
            MetadataPartLookup {
                purpose: part.purpose,
                key_val_data: copy_pairs(&part.key_val_data),
                data: crate::bytes::copy_bytes(part.data.as_slice()),
            },
        );
        i += 1;
    }
    assert(lookup_view(lookup@) =~= parts_view(metadata@));
    lookup
}

/// The token that the registry's answer describes: its metadata as handed
/// out, no content, and the owner and number that the caller names. A
/// refusal by the registry is handed on.
pub fn nft_from_metadata(owner: Principal, token_id: u64, answer: MetadataResult) -> (nft: Result<
    Nft,
    ApiError,
>)
    ensures
        match answer {
            MetadataResult::Success(metadata) => nft matches Ok(n) && n.owner == owner
                && n.token_id == token_id && lookup_view(n.metadata@) == parts_view(metadata@)
                && n.content@ == Seq::<u8>::empty(),
            MetadataResult::Failure(e) => nft matches Err(f) && f == e,
        },
{
    match answer {
        MetadataResult::Success(metadata) => Ok(
            Nft { owner, token_id, metadata: to_lookup_desc(&metadata), content: Vec::new() },
        ),
        MetadataResult::Failure(e) => Err(e),
    }
}

/// The text of the first pair in `pairs` that has the key `key` and a text
/// for its value.
pub open spec fn first_text(pairs: Seq<(Seq<char>, MetadataValView)>, key: Seq<char>) -> Option<
    Seq<char>,
>
    decreases pairs.len(),
{
    if pairs.len() == 0 {
        None
    } else {
        match pairs.first() {
            (k, MetadataValView::Text(t)) if k == key => Some(t),
            _ => first_text(pairs.drop_first(), key),
        }
    }
}

/// The text of the first pair, part by part, that has the key `key` and a
/// text for its value.
pub open spec fn first_text_in_parts(parts: Seq<PartView>, key: Seq<char>) -> Option<Seq<char>>
    decreases parts.len(),
{
    if parts.len() == 0 {
        None
    } else {
        match first_text(parts.first().1, key) {
            Some(t) => Some(t),
            None => first_text_in_parts(parts.drop_first(), key),
        }
    }
}

/// The text that a token's metadata gives for `key`: that of the first
/// pair, part by part, with that key and a text for its value.
pub fn find_text_content(metadata: &MetadataLookupDesc, key: &str) -> (text: Option<String>)
    ensures
        match text {
            Some(t) => first_text_in_parts(lookup_view(metadata@), key@) == Some(t@),
            None => first_text_in_parts(lookup_view(metadata@), key@).is_none(),
        },
{
    let wanted = key.to_owned();
    let mut p: usize = 0;
    proof {
        assert(lookup_view(metadata@).skip(0) =~= lookup_view(metadata@));
    }
    while p < metadata.len()
        invariant
            p <= metadata@.len(),
            wanted@ == key@,
            first_text_in_parts(lookup_view(metadata@), key@) == first_text_in_parts(
                lookup_view(metadata@).skip(p as int),
                key@,
            ),
        decreases metadata@.len() - p,
    {
        let pairs = &metadata[p].key_val_data;
        let ghost rest = lookup_view(metadata@).skip(p as int);
        proof {
            assert(rest.first() == metadata@[p as int]@);
            assert(rest.drop_first() =~= lookup_view(metadata@).skip(p + 1));
            assert(pairs_view(pairs@).skip(0) =~= pairs_view(pairs@));
        }
        let mut q: usize = 0;
        while q < pairs.len()
            invariant
                q <= pairs@.len(),
                wanted@ == key@,
                rest.len() > 0,
                rest.first().1 == pairs_view(pairs@),
                first_text_in_parts(lookup_view(metadata@), key@) == first_text_in_parts(
                    rest,
                    key@,
                ),
                first_text(pairs_view(pairs@), key@) == first_text(
                    pairs_view(pairs@).skip(q as int),
                    key@,
                ),
            decreases pairs@.len() - q,
        {
            let ghost tail = pairs_view(pairs@).skip(q as int);
            proof {
                assert(tail.first() == pairs@[q as int]@);
                assert(tail.drop_first() =~= pairs_view(pairs@).skip(q + 1));
            }
            if pairs[q].key == wanted {
                match &pairs[q].val {
                    MetadataVal::TextContent(t) => {
                        return Some(t.clone());
                    },
                    _ => {},
                }
            }
            q += 1;
        }
        proof {
            assert(pairs_view(pairs@).skip(pairs@.len() as int).len() == 0);
        }
        p += 1;
    }
    proof {
        assert(lookup_view(metadata@).skip(metadata@.len() as int).len() == 0);
    }
    None
}

} // verus!
