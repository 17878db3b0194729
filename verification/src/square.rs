//! What the grid service reports about a square, for each way in which
//! looking the square up or minting its token can end.

use vstd::prelude::*;
use crate::ipns::IpnsData;
use crate::nft_lookup::{find_text_content, first_text_in_parts, lookup_view};
use crate::string_map::StringMap;
use crate::types::{Nft, SquareProperties, Wallet};

verus! {

/// What is reported about a square.
#[derive(Debug)]
pub struct SquareReport {
    pub nft_square: Option<Nft>,
    pub bitcoin_balance: u64,
    pub ethereum_balance: u64,
    pub real_time_metrics: Option<StringMap<u32>>,
    pub created: bool,
}

/// The balance that is reported for a wallet service that is not asked.
pub const UNQUERIED_BALANCE: u64 = 0;

/// A balance as it is reported: the balance that was found, or 0 where
/// asking for it failed.
pub fn balance_or_zero(answer: Option<u64>) -> (balance: u64)
    ensures
        balance == match answer {
            Some(b) => b,
            None => 0,
        },
{
    match answer {
        Some(b) => b,
        None => 0,
    }
}

/// The bitcoin address that a token's metadata names, if it names one.
pub fn bitcoin_address_of(nft: &Nft) -> (address: Option<String>)
    ensures
        match address {
            Some(a) => first_text_in_parts(lookup_view(nft.metadata@), "bitcoin_address"@) == Some(
                a@,
            ),
            None => first_text_in_parts(lookup_view(nft.metadata@), "bitcoin_address"@).is_none(),
        },
{
    find_text_content(&nft.metadata, "bitcoin_address")
}

/// The name under which a token's metadata says the square's figures are
/// published, if it says so.
pub fn ipns_name_of(nft: &Nft) -> (name: Option<String>)
    ensures
        match name {
            Some(n) => first_text_in_parts(lookup_view(nft.metadata@), "ipns_id"@) == Some(n@),
            None => first_text_in_parts(lookup_view(nft.metadata@), "ipns_id"@).is_none(),
        },
{
    find_text_content(&nft.metadata, "ipns_id")
}

/// The figures that are reported with a token: those published under the
/// name that the token's metadata gives, if it gives one and figures are
/// published there.
pub open spec fn reported_figures(nft: Nft, ipns: IpnsData) -> Option<Map<Seq<char>, u32>> {
    match first_text_in_parts(lookup_view(nft.metadata@), "ipns_id"@) {
        Some(name) => if ipns.publishes(name) {
            Some(ipns.figures(name))
        } else {
            None
        },
        None => None,
    }
}

/// The figures in a report.
pub open spec fn figures_in(report: SquareReport) -> Option<Map<Seq<char>, u32>> {
    match report.real_time_metrics {
        Some(m) => Some(m@),
        None => None,
    }
}

/// Whether `report` is the report on a square whose token `nft` was there
/// already.
pub open spec fn is_existing_report(
    report: SquareReport,
    nft: Nft,
    bitcoin_balance: u64,
    ipns: IpnsData,
) -> bool {
    &&& report.nft_square == Some(nft)
    &&& report.bitcoin_balance == bitcoin_balance
    &&& report.ethereum_balance == UNQUERIED_BALANCE
    &&& figures_in(report) == reported_figures(nft, ipns)
    &&& !report.created
}

/// Whether `report` is the report on a square of which no token can be
/// shown.
pub open spec fn is_empty_report(report: SquareReport, bitcoin_balance: u64) -> bool {
    &&& report.nft_square.is_none()
    &&& report.bitcoin_balance == bitcoin_balance
    &&& report.ethereum_balance == UNQUERIED_BALANCE
    &&& report.real_time_metrics.is_none()
    &&& !report.created
}

/// Whether `report` is the report on a square whose token `nft` was minted
/// just now, with the figures published under `ipns_id`.
pub open spec fn is_minted_report(
    report: SquareReport,
    nft: Nft,
    bitcoin_balance: u64,
    ipns: IpnsData,
    ipns_id: Seq<char>,
) -> bool {
    &&& report.nft_square == Some(nft)
    &&& report.bitcoin_balance == bitcoin_balance
    &&& report.ethereum_balance == UNQUERIED_BALANCE
    &&& figures_in(report) == Some(ipns.figures(ipns_id))
    &&& report.created
}

/// The report on a square whose token was there already: the token, the
/// balance of its bitcoin address, and the figures published for it.
pub fn existing_square(nft: Nft, bitcoin_balance: u64, ipns: &IpnsData) -> (report: SquareReport)
    ensures
        is_existing_report(report, nft, bitcoin_balance, *ipns),
{
    let real_time_metrics = match ipns_name_of(&nft) {
        Some(name) => match ipns.get(name.as_str()) {
            Some(metrics) => Some(metrics.duplicate()),
            None => None,
        },
        None => None,
    };
    SquareReport {
        nft_square: Some(nft),
        bitcoin_balance,
        ethereum_balance: UNQUERIED_BALANCE,
        real_time_metrics,
        created: false,
    }
}

/// The report on a square whose token is remembered but could not be
/// fetched: nothing, and balances of 0.
pub fn unavailable_square() -> (report: SquareReport)
    ensures
        is_empty_report(report, 0),
{
    SquareReport {
        nft_square: None,
        bitcoin_balance: 0,
        ethereum_balance: UNQUERIED_BALANCE,
        real_time_metrics: None,
        created: false,
    }
}

/// What the token of a new square is minted with.
pub fn new_square_properties(
    geohash: String,
    ipns_id: String,
    ethereum_address: String,
    bitcoin_address: String,
) -> (properties: SquareProperties)
    ensures
        properties.geohash == geohash,
        properties.metadata == ipns_id,
        properties.wallet.ether == ethereum_address,
        properties.wallet.bitcoin == bitcoin_address,
{
    SquareProperties {
        geohash,
        metadata: ipns_id,
        wallet: Wallet { ether: ethereum_address, bitcoin: bitcoin_address },
    }
}

/// The report on a square whose token was minted just now: the token, the
/// balance of its bitcoin address, and the figures published under the
/// square's name, which must be there.
pub fn minted_square(nft: Nft, bitcoin_balance: u64, ipns: &IpnsData, ipns_id: &str) -> (report:
    SquareReport)
    requires
        ipns.publishes(ipns_id@),
    ensures
        is_minted_report(report, nft, bitcoin_balance, *ipns, ipns_id@),
{
    let real_time_metrics = match ipns.get(ipns_id) {
        Some(metrics) => Some(metrics.duplicate()),
        None => None,
    };
    SquareReport {
        nft_square: Some(nft),
        bitcoin_balance,
        ethereum_balance: UNQUERIED_BALANCE,
        real_time_metrics,
        created: true,
    }
}

/// The report on a square whose token could not be minted, or could not be
/// fetched after minting: nothing but the balance of its bitcoin address.
pub fn failed_mint(bitcoin_balance: u64) -> (report: SquareReport)
    ensures
        is_empty_report(report, bitcoin_balance),
{
    SquareReport {
        nft_square: None,
        bitcoin_balance,
        ethereum_balance: UNQUERIED_BALANCE,
        real_time_metrics: None,
        created: false,
    }
}

} // verus!
