use wallet_core::ecdsa::EcdsaPublicKey;
use wallet_core::error::WalletError;
use wallet_core::ethereum_wallet::EthereumWallet;
use wallet_core::signing::EcdsaCurve;
use wallet_core::state::{
    init_state, mutate_state, read_state, EcdsaKeyName, EthMainnetService, EthSepoliaService,
    EthereumNetwork, InitArg, RpcServices, State,
};

fn key(seed: &[u8]) -> EcdsaPublicKey {
    let key = ic_secp256k1::PrivateKey::generate_from_seed(seed).public_key();
    EcdsaPublicKey::from_sec1(&key.serialize_sec1(true), &[9u8; 32]).unwrap()
}

fn arg(network: Option<EthereumNetwork>, name: Option<EcdsaKeyName>) -> InitArg {
    InitArg { ethereum_network: network, ecdsa_key_name: name }
}

#[test]
fn settings_default_to_sepolia_and_the_local_test_key() {
    let state = init_state(arg(None, None));
    assert_eq!(state.ethereum_network(), EthereumNetwork::Sepolia);
    assert_eq!(state.ecdsa_key_id().name, "dfx_test_key");
    assert_eq!(state.ecdsa_key_id().curve, EcdsaCurve::Secp256k1);
    assert!(state.ecdsa_public_key().is_none());
    let same = State::default();
    assert_eq!(same.ethereum_network(), EthereumNetwork::Sepolia);
    assert_eq!(same.ecdsa_key_id().name, "dfx_test_key");
    assert_eq!(EthereumNetwork::default(), EthereumNetwork::Sepolia);
    assert_eq!(EcdsaKeyName::default(), EcdsaKeyName::TestKeyLocalDevelopment);
}

#[test]
fn settings_are_taken_from_the_init_argument() {
    let state = State::from(arg(Some(EthereumNetwork::Mainnet), Some(EcdsaKeyName::ProductionKey1)));
    assert_eq!(state.ethereum_network(), EthereumNetwork::Mainnet);
    assert_eq!(state.ecdsa_key_id().name, "key_1");
    let state = init_state(arg(Some(EthereumNetwork::Sepolia), Some(EcdsaKeyName::TestKey1)));
    assert_eq!(state.ethereum_network(), EthereumNetwork::Sepolia);
    assert_eq!(state.ecdsa_key_id().name, "test_key_1");
    assert_eq!(EcdsaKeyName::TestKeyLocalDevelopment.key_id().name, "dfx_test_key");
}

#[test]
fn chain_ids() {
    assert_eq!(EthereumNetwork::Mainnet.chain_id(), 1);
    assert_eq!(EthereumNetwork::Sepolia.chain_id(), 11155111);
}

#[test]
fn providers_follow_the_network() {
    let mainnet = init_state(arg(Some(EthereumNetwork::Mainnet), None));
    assert!(matches!(mainnet.evm_rpc_services(), RpcServices::EthMainnet(None)));
    assert!(matches!(
        mainnet.single_evm_rpc_service(),
        RpcServices::EthMainnet(Some(list)) if list == vec![EthMainnetService::Ankr]
    ));
    let sepolia = init_state(arg(None, None));
    assert!(matches!(sepolia.evm_rpc_services(), RpcServices::EthSepolia(None)));
    assert!(matches!(
        sepolia.single_evm_rpc_service(),
        RpcServices::EthSepolia(Some(list)) if list == vec![EthSepoliaService::Ankr]
    ));
}

#[test]
fn first_root_key_stays() {
    let mut state = init_state(arg(None, None));
    let first = key(b"first");
    let second = key(b"second");
    assert!(!first.same_as(&second));
    state.set_ecdsa_public_key(first.clone());
    assert!(state.ecdsa_public_key().unwrap().same_as(&first));
    state.set_ecdsa_public_key(second);
    assert!(state.ecdsa_public_key().unwrap().same_as(&first));
}

#[test]
fn without_a_root_key_nothing_is_derived() {
    let mut state = init_state(arg(None, None));
    assert_eq!(state.derived_public_key(b"owner-42").err(), Some(WalletError::ServiceUnavailable));
    assert_eq!(state.derive_address(b"owner-42").err(), Some(WalletError::ServiceUnavailable));
    assert_eq!(
        EthereumWallet::open(&mut state, b"owner-42").err(),
        Some(WalletError::ServiceUnavailable)
    );
    state.set_ecdsa_public_key(key(b"root"));
    assert!(state.derived_public_key(b"owner-42").is_ok());
}

#[test]
fn remembered_keys_are_the_derived_keys() {
    let root = key(b"root");
    let mut state = init_state(arg(None, None));
    state.set_ecdsa_public_key(root.clone());
    let owners: [&[u8]; 4] = [b"owner-42", b"", b"owner-43", b"\x00"];
    let mut first_round = Vec::new();
    for owner in owners {
        assert!(!state.is_remembered(owner));
        first_round.push(state.derived_public_key(owner).unwrap());
        assert!(state.is_remembered(owner));
    }
    assert!(!state.is_remembered(b"owner-44"));
    for (owner, remembered) in owners.iter().zip(first_round.iter()) {
        let again = state.derived_public_key(owner).unwrap();
        assert!(again.same_as(remembered));
        let fresh = EthereumWallet::new(owner, &root).unwrap();
        assert!(fresh.as_ref().same_as(remembered));
        assert_eq!(fresh.owner(), *owner);
        let address = state.derive_address(owner).unwrap();
        assert!(address.same_as(&fresh.ethereum_address()));
    }
    for i in 0..first_round.len() {
        for j in (i + 1)..first_round.len() {
            assert!(!first_round[i].same_as(&first_round[j]));
        }
    }
}

#[test]
fn readers_and_writers_get_the_state() {
    let mut state = init_state(arg(Some(EthereumNetwork::Mainnet), None));
    assert_eq!(read_state(&state, |s| s.ethereum_network()), EthereumNetwork::Mainnet);
    assert_eq!(read_state(&state, |s| s.ecdsa_key_id().name), "dfx_test_key");
    let root = key(b"root");
    let stored = mutate_state(&mut state, |s| {
        s.set_ecdsa_public_key(root.clone());
        7
    });
    assert_eq!(stored, 7);
    assert!(read_state(&state, |s| s.ecdsa_public_key()).unwrap().same_as(&root));
    let derived = mutate_state(&mut state, |s| s.derived_public_key(b"owner-42")).unwrap();
    assert!(derived.same_as(&EthereumWallet::new(b"owner-42", &root).unwrap().as_ref().clone()));
}
