//! The steps by which the grid service comes to its report on a square.
//!
//! Between two steps the service asks another service and waits. What it
//! is waiting for is a [`Pending`]; what it is told is an [`Answer`]; what
//! it does next is a [`Step`].

use vstd::prelude::*;
use vstd::string::StringSliceAdditionalSpecFns;
use crate::ipns::{generate_ipns_id, initial_metrics, ipns_id_of, IpnsData};
use crate::nft_lookup::{first_text_in_parts, lookup_view};
use crate::registry::{get_token_id_by_geohash, Registry};
use crate::square::{
    balance_or_zero,
    bitcoin_address_of,
    existing_square,
    failed_mint,
    is_empty_report,
    is_existing_report,
    is_minted_report,
    minted_square,
    new_square_properties,
    unavailable_square,
    SquareReport,
};
use crate::types::{Nft, SquareProperties};

verus! {

/// What the service is waiting for, with what it has gathered so far.
#[derive(Debug)]
pub enum Pending {
    /// The token of a square that has one.
    ExistingToken,
    /// The balance of the address that the square's token names.
    ExistingBalance { nft: Nft },
    /// The bitcoin address of a square that has no token yet.
    NewBitcoinAddress { ipns_id: String },
    /// The balance of the new square's bitcoin address.
    NewBitcoinBalance { ipns_id: String, bitcoin_address: String },
    /// The wallet address of the new square.
    NewEthereumAddress { ipns_id: String, bitcoin_address: String, bitcoin_balance: u64 },
    /// The minting of the new square's token.
    Mint { ipns_id: String, bitcoin_balance: u64 },
    /// The token that was minted just now.
    MintedToken { ipns_id: String, bitcoin_balance: u64 },
}

/// What another service answered; `None` and `false` stand for a failed
/// request.
#[derive(Debug)]
pub enum Answer {
    Token(Option<Nft>),
    Balance(Option<u64>),
    Address(Option<String>),
    Minted(bool),
}

/// Why no report can be made.
#[derive(Clone, Copy, Debug, PartialEq, Eq, Structural)]
pub enum Failure {
    /// The bitcoin service gave no address for a new square.
    NoBitcoinAddress,
    /// The wallet service gave no address for a new square.
    NoEthereumAddress,
    /// No figures are published for a square whose token was minted.
    NoFigures,
    /// The answer is not one to the request that is pending.
    UnexpectedAnswer,
}

/// What the service does next.
#[derive(Debug)]
pub enum Step {
    /// Ask the token registry for the square's token.
    FetchToken { then: Pending },
    /// Ask the bitcoin service for the balance of `address`.
    FetchBitcoinBalance { address: String, then: Pending },
    /// Ask the bitcoin service for the square's address.
    FetchBitcoinAddress { then: Pending },
    /// Ask the wallet service for the square's address.
    FetchEthereumAddress { then: Pending },
    /// Ask the token registry to mint the square's token.
    MintToken { properties: SquareProperties, then: Pending },
    /// Hand out the report.
    Done(SquareReport),
    /// Give up.
    Failed(Failure),
}

/// Whether `step` is the first step for the square with the given geohash,
/// and `after` what is published once it is taken.
///
/// A square that has a token is looked up. For a square that has none, the
/// initial figures are published under the square's name, and its bitcoin
/// address is asked for.
pub open spec fn is_first_step(
    registry: Registry,
    before: IpnsData,
    after: IpnsData,
    geohash: &str,
    step: Step,
) -> bool {
    if registry.tokens().contains_key(geohash@) {
        step == (Step::FetchToken { then: Pending::ExistingToken }) && after == before
    } else {
        &&& step matches Step::FetchBitcoinAddress { then: Pending::NewBitcoinAddress { ipns_id } }
        &&& ipns_id@ == ipns_id_of(geohash.spec_bytes())
        &&& after.publishes(ipns_id@)
        &&& after.figures(ipns_id@) == initial_metrics()
        &&& forall|name: Seq<char>|
            name != ipns_id@ ==> after.publishes(name) == before.publishes(name) && after.figures(
                name,
            ) == before.figures(name)
    }
}

/// The first step for the square with the given geohash.
pub fn start(registry: &Registry, ipns: &mut IpnsData, geohash: &str) -> (step: Step)
    ensures
        is_first_step(*registry, *old(ipns), *final(ipns), geohash, step),
{
    match get_token_id_by_geohash(registry, geohash) {
        Some(_) => Step::FetchToken { then: Pending::ExistingToken },
        None => {
            let ipns_id = generate_ipns_id(geohash);
            ipns.publish_initial(ipns_id.clone());
            Step::FetchBitcoinAddress { then: Pending::NewBitcoinAddress { ipns_id } }
        },
    }
}

/// Whether `step` is what follows on `answer` while `pending` is waited
/// for.
pub open spec fn follows(
    pending: Pending,
    answer: Answer,
    ipns: IpnsData,
    geohash: Seq<char>,
    step: Step,
) -> bool {
    match (pending, answer) {
        (Pending::ExistingToken, Answer::Token(Some(nft))) => match first_text_in_parts(
            lookup_view(nft.metadata@),
            "bitcoin_address"@,
        ) {
            Some(named) => step matches Step::FetchBitcoinBalance { address, then } && address@
                == named && then == (Pending::ExistingBalance { nft }),
            None => step matches Step::Done(report) && is_existing_report(report, nft, 0, ipns),
        },
        (Pending::ExistingToken, Answer::Token(None)) => step matches Step::Done(report)
            && is_empty_report(report, 0),
        (Pending::ExistingBalance { nft }, Answer::Balance(balance)) => step matches Step::Done(
            report,
        ) && is_existing_report(
            report,
            nft,
            match balance {
                Some(b) => b,
                None => 0,
            },
            ipns,
        ),
        (Pending::NewBitcoinAddress { ipns_id }, Answer::Address(Some(found))) => step matches Step::FetchBitcoinBalance {
            address,
            then,
        } && address@ == found@ && then == (Pending::NewBitcoinBalance {
            ipns_id,
            bitcoin_address: found,
        }),
        (Pending::NewBitcoinAddress { ipns_id }, Answer::Address(None)) => step == Step::Failed(
            Failure::NoBitcoinAddress,
        ),
        (
            Pending::NewBitcoinBalance { ipns_id, bitcoin_address },
            Answer::Balance(balance),
        ) => step == (Step::FetchEthereumAddress {
            then: Pending::NewEthereumAddress {
                ipns_id,
                bitcoin_address,
                bitcoin_balance: match balance {
                    Some(b) => b,
                    None => 0,
                },
            },
        }),
        (
            Pending::NewEthereumAddress { ipns_id, bitcoin_address, bitcoin_balance },
            Answer::Address(Some(found)),
        ) => {
            &&& step matches Step::MintToken { properties, then }
            &&& properties.geohash@ == geohash
            &&& properties.metadata@ == ipns_id@
            &&& properties.wallet.ether == found
            &&& properties.wallet.bitcoin == bitcoin_address
            &&& then == (Pending::Mint { ipns_id, bitcoin_balance })
        },
        (
            Pending::NewEthereumAddress { ipns_id, bitcoin_address, bitcoin_balance },
            Answer::Address(None),
        ) => step == Step::Failed(Failure::NoEthereumAddress),
        (Pending::Mint { ipns_id, bitcoin_balance }, Answer::Minted(true)) => step == (
        Step::FetchToken { then: Pending::MintedToken { ipns_id, bitcoin_balance } }),
        (Pending::Mint { ipns_id, bitcoin_balance }, Answer::Minted(false)) => step matches Step::Done(
            report,
        ) && is_empty_report(report, bitcoin_balance),
        (
            Pending::MintedToken { ipns_id, bitcoin_balance },
            Answer::Token(Some(nft)),
        ) => if ipns.publishes(ipns_id@) {
            step matches Step::Done(report) && is_minted_report(
                report,
                nft,
                bitcoin_balance,
                ipns,
                ipns_id@,
            )
        } else {
            step == Step::Failed(Failure::NoFigures)
        },
        (
            Pending::MintedToken { ipns_id, bitcoin_balance },
            Answer::Token(None),
        ) => step matches Step::Done(report) && is_empty_report(report, bitcoin_balance),
        _ => step == Step::Failed(Failure::UnexpectedAnswer),
    }
}

/// What follows on `answer` while `pending` is waited for.
///
/// A failed request for a balance counts as a balance of 0. A failed
/// request for an address ends the work without a report. A token that
/// cannot be fetched or minted gives a report without a token.
pub fn resume(pending: Pending, answer: Answer, ipns: &IpnsData, geohash: &str) -> (step: Step)
    ensures
        follows(pending, answer, *ipns, geohash@, step),
{
    match (pending, answer) {
        (Pending::ExistingToken, Answer::Token(Some(nft))) => match bitcoin_address_of(&nft) {
            Some(address) => Step::FetchBitcoinBalance {
                address,
                then: Pending::ExistingBalance { nft },
            },
            None => Step::Done(existing_square(nft, balance_or_zero(None), ipns)),
        },
        (Pending::ExistingToken, Answer::Token(None)) => Step::Done(unavailable_square()),
        (Pending::ExistingBalance { nft }, Answer::Balance(balance)) => Step::Done(
            existing_square(nft, balance_or_zero(balance), ipns),
        ),
        (Pending::NewBitcoinAddress { ipns_id }, Answer::Address(Some(found))) => {
            Step::FetchBitcoinBalance {
                address: found.clone(),
                then: Pending::NewBitcoinBalance { ipns_id, bitcoin_address: found },
            }
        },
        (Pending::NewBitcoinAddress { ipns_id }, Answer::Address(None)) => Step::Failed(
            Failure::NoBitcoinAddress,
        ),
        (Pending::NewBitcoinBalance { ipns_id, bitcoin_address }, Answer::Balance(balance)) => {
            Step::FetchEthereumAddress {
                then: Pending::NewEthereumAddress {
                    ipns_id,
                    bitcoin_address,
                    bitcoin_balance: balance_or_zero(balance),
                },
            }
        },
        (
            Pending::NewEthereumAddress { ipns_id, bitcoin_address, bitcoin_balance },
            Answer::Address(Some(found)),
        ) => Step::MintToken {
            properties: new_square_properties(
                geohash.to_owned(),
                ipns_id.clone(),
                found,
                bitcoin_address,
            ),
            then: Pending::Mint { ipns_id, bitcoin_balance },
        },
        (
            Pending::NewEthereumAddress { ipns_id, bitcoin_address, bitcoin_balance },
            Answer::Address(None),
        ) => Step::Failed(Failure::NoEthereumAddress),
        (Pending::Mint { ipns_id, bitcoin_balance }, Answer::Minted(true)) => Step::FetchToken {
            then: Pending::MintedToken { ipns_id, bitcoin_balance },
        },
        (Pending::Mint { ipns_id, bitcoin_balance }, Answer::Minted(false)) => Step::Done(
            failed_mint(bitcoin_balance),
        ),
        (Pending::MintedToken { ipns_id, bitcoin_balance }, Answer::Token(Some(nft))) => {
            if ipns.get(ipns_id.as_str()).is_some() {
                Step::Done(minted_square(nft, bitcoin_balance, ipns, ipns_id.as_str()))
            } else {
                Step::Failed(Failure::NoFigures)
            }
        },
        (Pending::MintedToken { ipns_id, bitcoin_balance }, Answer::Token(None)) => Step::Done(
            failed_mint(bitcoin_balance),
        ),
        _ => Step::Failed(Failure::UnexpectedAnswer),
    }
}

} // verus!
