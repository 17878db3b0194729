use candid::Principal;
use wallet_core::ipns::{generate_ipns_id, ipns_id_with, new_metrics, IpnsData};
use wallet_core::nft_lookup::{find_text_content, nft_from_metadata, to_lookup_desc};
use wallet_core::nft_mint::{create_metadata, record_mint};
use wallet_core::registry::{
    get_bitcoin_canister_id, get_dip721_canister_id, get_ethereum_canister_id,
    get_token_id_by_geohash, set_bitcoin_canister_id, set_dip721_canister_id,
    set_ethereum_canister_id, update_geohash_to_token_id, Registry,
};
use wallet_core::square::{
    balance_or_zero, bitcoin_address_of, existing_square, failed_mint, ipns_name_of,
    minted_square, new_square_properties, unavailable_square,
};
use wallet_core::square_flow::{resume, start, Answer, Failure, Pending, Step};
use wallet_core::string_map::StringMap;
use wallet_core::types::{
    ApiError, MetadataKeyVal, MetadataPart, MetadataPartLookup, MetadataPurpose, MetadataResult,
    MetadataVal, MintReceipt, MintResult, Nft, SquareProperties, Wallet,
};

fn square(geohash: &str) -> SquareProperties {
    SquareProperties {
        geohash: geohash.to_string(),
        metadata: generate_ipns_id(geohash),
        wallet: Wallet { ether: "0xabc".to_string(), bitcoin: "1BoatSLRHtKNngkdXEeobR76b53LETtpyT".to_string() },
    }
}

fn text(value: &MetadataVal) -> Option<&str> {
    match value {
        MetadataVal::TextContent(t) => Some(t.as_str()),
        _ => None,
    }
}

fn pair(key: &str, val: MetadataVal) -> MetadataKeyVal {
    MetadataKeyVal { key: key.to_string(), val }
}

#[test]
fn metadata_of_a_square_names_geohash_and_addresses() {
    let metadata = create_metadata(square("9q8yyk8yuv26"));
    assert_eq!(metadata.len(), 1);
    assert_eq!(metadata[0].purpose, MetadataPurpose::Rendered);
    assert!(metadata[0].data.is_empty());
    let pairs = &metadata[0].key_val_data;
    assert_eq!(pairs.len(), 3);
    assert_eq!(pairs[0].key, "geohash");
    assert_eq!(text(&pairs[0].val), Some("9q8yyk8yuv26"));
    assert_eq!(pairs[1].key, "bitcoin_address");
    assert_eq!(text(&pairs[1].val), Some("1BoatSLRHtKNngkdXEeobR76b53LETtpyT"));
    assert_eq!(pairs[2].key, "ethereum_address");
    assert_eq!(text(&pairs[2].val), Some("0xabc"));
}

#[test]
fn ipns_id_is_base58_of_sha256() {
    assert_eq!(
        generate_ipns_id("9q8yyk8yuv26"),
        "ipns-73CAVNRJTbo2J1aivDXKGVqLer396wCGKGDBNNE5dWEx"
    );
    assert_eq!(generate_ipns_id(""), "ipns-GKot5hBsd81kMupNCXHaqbhv3huEbxAFMLnpcX2hniwn");
    assert_eq!(
        generate_ipns_id("u4pruydqqvj"),
        "ipns-21Xcj8N7fhY3vqcfBqLzRPUCUVb8z4WxCvTbKRFxS9g8"
    );
    assert_eq!(generate_ipns_id("9q8yyk8yuv26"), generate_ipns_id("9q8yyk8yuv26"));
    assert_eq!(ipns_id_with("abc"), "ipns-abc");
    assert_eq!(ipns_id_with(""), "ipns-");
}

#[test]
fn initial_figures_of_a_square() {
    let metrics = new_metrics();
    assert_eq!(metrics.len(), 4);
    assert_eq!(metrics.get("Rating"), Some(&0));
    assert_eq!(metrics.get("Air quality index"), Some(&50));
    assert_eq!(metrics.get("Crime rate"), Some(&50));
    assert_eq!(metrics.get("Car accident rate"), Some(&50));
    assert_eq!(metrics.get("rating"), None);
}

#[test]
fn string_map_keeps_one_value_per_key() {
    let mut map: StringMap<u64> = StringMap::new();
    assert_eq!(map.len(), 0);
    assert_eq!(map.get("a"), None);
    assert_eq!(map.insert("a".to_string(), 1), None);
    assert_eq!(map.insert("b".to_string(), 2), None);
    assert_eq!(map.insert("a".to_string(), 3), Some(1));
    assert_eq!(map.len(), 2);
    assert_eq!(map.get("a"), Some(&3));
    assert_eq!(map.get("b"), Some(&2));
    assert_eq!(map.get(""), None);
    assert_eq!(map.entry(0), &("a".to_string(), 3));
    assert_eq!(map.entry(1), &("b".to_string(), 2));
    let copy = map.duplicate();
    assert_eq!(copy.len(), 2);
    assert_eq!(copy.get("a"), Some(&3));
    assert_eq!(copy.get("b"), Some(&2));
}

#[test]
fn registry_remembers_services() {
    let mut registry = Registry::new();
    let dip721 = Principal::from_text("be2us-64aaa-aaaaa-qaabq-cai").unwrap();
    let bitcoin = Principal::from_text("bd3sg-teaaa-aaaaa-qaaba-cai").unwrap();
    let ethereum = Principal::from_text("bw4dl-smaaa-aaaaa-qaacq-cai").unwrap();
    set_dip721_canister_id(&mut registry, Some(dip721));
    set_bitcoin_canister_id(&mut registry, Some(bitcoin));
    set_ethereum_canister_id(&mut registry, Some(ethereum));
    assert_eq!(get_dip721_canister_id(&registry), dip721);
    assert_eq!(get_bitcoin_canister_id(&registry), bitcoin);
    assert_eq!(get_ethereum_canister_id(&registry), ethereum);
    set_dip721_canister_id(&mut registry, Some(bitcoin));
    assert_eq!(get_dip721_canister_id(&registry), bitcoin);
    assert_eq!(get_bitcoin_canister_id(&registry), bitcoin);
}

#[test]
fn registry_remembers_the_latest_token_of_a_square() {
    let mut registry = Registry::new();
    assert_eq!(get_token_id_by_geohash(&registry, "9q8yyk8yuv26"), None);
    update_geohash_to_token_id(&mut registry, "9q8yyk8yuv26".to_string(), 7);
    update_geohash_to_token_id(&mut registry, "u4pruydqqvj".to_string(), 8);
    assert_eq!(get_token_id_by_geohash(&registry, "9q8yyk8yuv26"), Some(7));
    assert_eq!(get_token_id_by_geohash(&registry, "u4pruydqqvj"), Some(8));
    update_geohash_to_token_id(&mut registry, "9q8yyk8yuv26".to_string(), 9);
    assert_eq!(get_token_id_by_geohash(&registry, "9q8yyk8yuv26"), Some(9));
    assert_eq!(get_token_id_by_geohash(&registry, "9q8yyk8yuv2"), None);
    registry.clear_tokens();
    assert_eq!(get_token_id_by_geohash(&registry, "9q8yyk8yuv26"), None);
}

#[test]
fn registry_survives_an_upgrade() {
    let mut registry = Registry::new();
    let dip721 = Principal::from_text("be2us-64aaa-aaaaa-qaabq-cai").unwrap();
    set_dip721_canister_id(&mut registry, Some(dip721));
    update_geohash_to_token_id(&mut registry, "a".to_string(), 1);
    update_geohash_to_token_id(&mut registry, "b".to_string(), 2);
    update_geohash_to_token_id(&mut registry, "a".to_string(), 3);
    let saved = registry.snapshot();
    assert_eq!(saved.0, Some(dip721));
    assert_eq!(saved.1, None);
    assert_eq!(saved.2, None);
    assert_eq!(saved.3, vec![("a".to_string(), 3), ("b".to_string(), 2)]);
    let restored = Registry::restore(saved);
    assert_eq!(get_dip721_canister_id(&restored), dip721);
    assert_eq!(get_token_id_by_geohash(&restored, "a"), Some(3));
    assert_eq!(get_token_id_by_geohash(&restored, "b"), Some(2));
    assert_eq!(get_token_id_by_geohash(&restored, "c"), None);
    let later = Registry::restore((None, None, None, vec![("x".to_string(), 1), ("x".to_string(), 2)]));
    assert_eq!(get_token_id_by_geohash(&later, "x"), Some(2));
}

#[test]
fn receipt_of_a_mint_is_recorded() {
    let mut registry = Registry::new();
    let minted = record_mint(
        &mut registry,
        "9q8yyk8yuv26".to_string(),
        MintReceipt::Success { token_id: 5, id: 77 },
    );
    assert_eq!(minted, Ok((77, 5)));
    assert_eq!(get_token_id_by_geohash(&registry, "9q8yyk8yuv26"), Some(5));
    let refused = record_mint(
        &mut registry,
        "u4pruydqqvj".to_string(),
        MintReceipt::Failure(ApiError::Unauthorized),
    );
    assert_eq!(refused, Err(ApiError::Unauthorized));
    assert_eq!(get_token_id_by_geohash(&registry, "u4pruydqqvj"), None);
    let result = MintResult { token_id: 5, id: 77 };
    assert_eq!((result.id, result.token_id), (77, 5));
}

#[test]
fn metadata_is_handed_out_as_it_is_kept() {
    let kept = vec![
        MetadataPart {
            purpose: MetadataPurpose::Preview,
            key_val_data: vec![pair("n", MetadataVal::Nat64Content(9)), pair("b", MetadataVal::BlobContent(vec![1, 2]))],
            data: vec![3, 4],
        },
        MetadataPart { purpose: MetadataPurpose::Rendered, key_val_data: vec![], data: vec![] },
    ];
    let lookup = to_lookup_desc(&kept);
    assert_eq!(lookup.len(), 2);
    assert_eq!(lookup[0].purpose, MetadataPurpose::Preview);
    assert_eq!(lookup[0].data, vec![3, 4]);
    assert_eq!(lookup[0].key_val_data.len(), 2);
    assert_eq!(lookup[0].key_val_data[0].key, "n");
    assert!(matches!(lookup[0].key_val_data[0].val, MetadataVal::Nat64Content(9)));
    assert_eq!(lookup[0].key_val_data[1].key, "b");
    assert!(matches!(&lookup[0].key_val_data[1].val, MetadataVal::BlobContent(b) if b == &vec![1u8, 2]));
    assert_eq!(lookup[1].purpose, MetadataPurpose::Rendered);
    assert!(lookup[1].key_val_data.is_empty());
}

#[test]
fn token_is_built_from_the_registrys_answer() {
    let owner = Principal::anonymous();
    let nft = nft_from_metadata(owner, 12, MetadataResult::Success(create_metadata(square("9q8yyk8yuv26")))).unwrap();
    assert_eq!(nft.owner, owner);
    assert_eq!(nft.token_id, 12);
    assert!(nft.content.is_empty());
    assert_eq!(nft.metadata.len(), 1);
    assert_eq!(bitcoin_address_of(&nft), Some("1BoatSLRHtKNngkdXEeobR76b53LETtpyT".to_string()));
    assert_eq!(ipns_name_of(&nft), None);
    let refused = nft_from_metadata(owner, 12, MetadataResult::Failure(ApiError::InvalidTokenId));
    assert_eq!(refused.err(), Some(ApiError::InvalidTokenId));
    for e in [ApiError::Unauthorized, ApiError::ZeroAddress, ApiError::Other] {
        assert_eq!(nft_from_metadata(owner, 1, MetadataResult::Failure(e)).err(), Some(e));
    }
}

#[test]
fn first_text_with_the_key_is_found() {
    let metadata = vec![
        MetadataPartLookup {
            purpose: MetadataPurpose::Preview,
            key_val_data: vec![
                pair("ipns_id", MetadataVal::Nat8Content(1)),
                pair("other", MetadataVal::TextContent("x".to_string())),
            ],
            data: vec![],
        },
        MetadataPartLookup {
            purpose: MetadataPurpose::Rendered,
            key_val_data: vec![
                pair("ipns_id", MetadataVal::TextContent("first".to_string())),
                pair("ipns_id", MetadataVal::TextContent("second".to_string())),
            ],
            data: vec![],
        },
    ];
    assert_eq!(find_text_content(&metadata, "ipns_id"), Some("first".to_string()));
    assert_eq!(find_text_content(&metadata, "other"), Some("x".to_string()));
    assert_eq!(find_text_content(&metadata, "bitcoin_address"), None);
    assert_eq!(find_text_content(&Vec::new(), "ipns_id"), None);
}

#[test]
fn reports_on_squares() {
    let mut ipns = IpnsData::new();
    let name = generate_ipns_id("9q8yyk8yuv26");
    assert!(ipns.get(&name).is_none());
    ipns.publish_initial(name.clone());
    assert_eq!(ipns.get(&name).unwrap().get("Crime rate"), Some(&50));

    let nft = |metadata| Nft { owner: Principal::anonymous(), token_id: 3, metadata, content: vec![] };
    let named = vec![MetadataPartLookup {
        purpose: MetadataPurpose::Rendered,
        key_val_data: vec![pair("ipns_id", MetadataVal::TextContent(name.clone()))],
        data: vec![],
    }];
    let report = existing_square(nft(named), 1500, &ipns);
    assert_eq!(report.nft_square.as_ref().map(|n| n.token_id), Some(3));
    assert_eq!(report.bitcoin_balance, 1500);
    assert_eq!(report.ethereum_balance, 0);
    assert_eq!(report.real_time_metrics.as_ref().unwrap().get("Rating"), Some(&0));
    assert_eq!(report.real_time_metrics.as_ref().unwrap().len(), 4);
    assert!(!report.created);

    let unnamed = existing_square(nft(vec![]), 2, &ipns);
    assert!(unnamed.real_time_metrics.is_none());
    assert_eq!(unnamed.bitcoin_balance, 2);

    let minted = minted_square(nft(vec![]), 10, &ipns, &name);
    assert!(minted.created);
    assert_eq!(minted.bitcoin_balance, 10);
    assert_eq!(minted.ethereum_balance, 0);
    assert_eq!(minted.real_time_metrics.unwrap().get("Air quality index"), Some(&50));

    let failed = failed_mint(10);
    assert!(failed.nft_square.is_none() && failed.real_time_metrics.is_none() && !failed.created);
    assert_eq!((failed.bitcoin_balance, failed.ethereum_balance), (10, 0));

    let gone = unavailable_square();
    assert!(gone.nft_square.is_none() && gone.real_time_metrics.is_none() && !gone.created);
    assert_eq!((gone.bitcoin_balance, gone.ethereum_balance), (0, 0));

    assert_eq!(balance_or_zero(Some(21)), 21);
    assert_eq!(balance_or_zero(None), 0);

    let properties = new_square_properties("g".to_string(), "i".to_string(), "e".to_string(), "b".to_string());
    assert_eq!(properties.geohash, "g");
    assert_eq!(properties.metadata, "i");
    assert_eq!(properties.wallet.ether, "e");
    assert_eq!(properties.wallet.bitcoin, "b");
}

#[test]
fn square_with_a_token_is_looked_up() {
    let mut registry = Registry::new();
    update_geohash_to_token_id(&mut registry, "9q8yyk8yuv26".to_string(), 3);
    let mut ipns = IpnsData::new();
    let step = start(&registry, &mut ipns, "9q8yyk8yuv26");
    assert_eq!(ipns.len(), 0);
    let pending = match step {
        Step::FetchToken { then } => then,
        other => panic!("unexpected step {:?}", other),
    };
    assert!(matches!(pending, Pending::ExistingToken));

    let nft = nft_from_metadata(
        Principal::anonymous(),
        3,
        MetadataResult::Success(create_metadata(square("9q8yyk8yuv26"))),
    )
    .unwrap();
    let step = resume(pending, Answer::Token(Some(nft)), &ipns, "9q8yyk8yuv26");
    let pending = match step {
        Step::FetchBitcoinBalance { address, then } => {
            assert_eq!(address, "1BoatSLRHtKNngkdXEeobR76b53LETtpyT");
            then
        }
        other => panic!("unexpected step {:?}", other),
    };
    match resume(pending, Answer::Balance(Some(1200)), &ipns, "9q8yyk8yuv26") {
        Step::Done(report) => {
            assert_eq!(report.nft_square.map(|n| n.token_id), Some(3));
            assert_eq!(report.bitcoin_balance, 1200);
            assert_eq!(report.ethereum_balance, 0);
            assert!(report.real_time_metrics.is_none());
            assert!(!report.created);
        }
        other => panic!("unexpected step {:?}", other),
    }
}

#[test]
fn square_with_a_token_that_cannot_be_fetched() {
    let ipns = IpnsData::new();
    match resume(Pending::ExistingToken, Answer::Token(None), &ipns, "g") {
        Step::Done(report) => {
            assert!(report.nft_square.is_none() && report.real_time_metrics.is_none());
            assert_eq!((report.bitcoin_balance, report.ethereum_balance, report.created), (0, 0, false));
        }
        other => panic!("unexpected step {:?}", other),
    }
    let bare = Nft { owner: Principal::anonymous(), token_id: 1, metadata: vec![], content: vec![] };
    match resume(Pending::ExistingToken, Answer::Token(Some(bare)), &ipns, "g") {
        Step::Done(report) => {
            assert_eq!(report.nft_square.map(|n| n.token_id), Some(1));
            assert_eq!(report.bitcoin_balance, 0);
        }
        other => panic!("unexpected step {:?}", other),
    }
    let bare = Nft { owner: Principal::anonymous(), token_id: 1, metadata: vec![], content: vec![] };
    match resume(Pending::ExistingBalance { nft: bare }, Answer::Balance(None), &ipns, "g") {
        Step::Done(report) => assert_eq!(report.bitcoin_balance, 0),
        other => panic!("unexpected step {:?}", other),
    }
}

#[test]
fn new_square_is_minted_step_by_step() {
    let registry = Registry::new();
    let mut ipns = IpnsData::new();
    let geohash = "9q8yyk8yuv26";
    let name = generate_ipns_id(geohash);

    let pending = match start(&registry, &mut ipns, geohash) {
        Step::FetchBitcoinAddress { then } => then,
        other => panic!("unexpected step {:?}", other),
    };
    assert!(matches!(&pending, Pending::NewBitcoinAddress { ipns_id } if ipns_id == &name));
    assert_eq!(ipns.len(), 1);
    assert_eq!(ipns.get(&name).unwrap().get("Rating"), Some(&0));

    let pending = match resume(pending, Answer::Address(Some("btc".to_string())), &ipns, geohash) {
        Step::FetchBitcoinBalance { address, then } => {
            assert_eq!(address, "btc");
            then
        }
        other => panic!("unexpected step {:?}", other),
    };
    let pending = match resume(pending, Answer::Balance(None), &ipns, geohash) {
        Step::FetchEthereumAddress { then } => then,
        other => panic!("unexpected step {:?}", other),
    };
    assert!(matches!(
        &pending,
        Pending::NewEthereumAddress { bitcoin_address, bitcoin_balance: 0, .. } if bitcoin_address == "btc"
    ));
    let pending = match resume(pending, Answer::Address(Some("0xeth".to_string())), &ipns, geohash) {
        Step::MintToken { properties, then } => {
            assert_eq!(properties.geohash, geohash);
            assert_eq!(properties.metadata, name);
            assert_eq!(properties.wallet.ether, "0xeth");
            assert_eq!(properties.wallet.bitcoin, "btc");
            then
        }
        other => panic!("unexpected step {:?}", other),
    };
    let pending = match resume(pending, Answer::Minted(true), &ipns, geohash) {
        Step::FetchToken { then } => then,
        other => panic!("unexpected step {:?}", other),
    };
    let nft = Nft { owner: Principal::anonymous(), token_id: 8, metadata: vec![], content: vec![] };
    match resume(pending, Answer::Token(Some(nft)), &ipns, geohash) {
        Step::Done(report) => {
            assert_eq!(report.nft_square.map(|n| n.token_id), Some(8));
            assert_eq!(report.bitcoin_balance, 0);
            assert_eq!(report.ethereum_balance, 0);
            assert_eq!(report.real_time_metrics.unwrap().get("Crime rate"), Some(&50));
            assert!(report.created);
        }
        other => panic!("unexpected step {:?}", other),
    }
}

#[test]
fn new_square_that_cannot_be_minted() {
    let ipns = IpnsData::new();
    let waiting = || Pending::Mint { ipns_id: "i".to_string(), bitcoin_balance: 5 };
    match resume(waiting(), Answer::Minted(false), &ipns, "g") {
        Step::Done(report) => {
            assert!(report.nft_square.is_none() && report.real_time_metrics.is_none());
            assert_eq!((report.bitcoin_balance, report.ethereum_balance, report.created), (5, 0, false));
        }
        other => panic!("unexpected step {:?}", other),
    }
    let minted = || Pending::MintedToken { ipns_id: "i".to_string(), bitcoin_balance: 5 };
    match resume(minted(), Answer::Token(None), &ipns, "g") {
        Step::Done(report) => {
            assert!(report.nft_square.is_none());
            assert_eq!(report.bitcoin_balance, 5);
        }
        other => panic!("unexpected step {:?}", other),
    }
    let nft = Nft { owner: Principal::anonymous(), token_id: 8, metadata: vec![], content: vec![] };
    assert!(matches!(
        resume(minted(), Answer::Token(Some(nft)), &ipns, "g"),
        Step::Failed(Failure::NoFigures)
    ));
    assert!(matches!(
        resume(Pending::NewBitcoinAddress { ipns_id: "i".to_string() }, Answer::Address(None), &ipns, "g"),
        Step::Failed(Failure::NoBitcoinAddress)
    ));
    assert!(matches!(
        resume(
            Pending::NewEthereumAddress {
                ipns_id: "i".to_string(),
                bitcoin_address: "b".to_string(),
                bitcoin_balance: 1
            },
            Answer::Address(None),
            &ipns,
            "g"
        ),
        Step::Failed(Failure::NoEthereumAddress)
    ));
    assert!(matches!(
        resume(waiting(), Answer::Balance(Some(1)), &ipns, "g"),
        Step::Failed(Failure::UnexpectedAnswer)
    ));
    assert!(matches!(
        resume(Pending::ExistingToken, Answer::Minted(true), &ipns, "g"),
        Step::Failed(Failure::UnexpectedAnswer)
    ));
}
