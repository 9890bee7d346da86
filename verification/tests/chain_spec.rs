//! Tests for the chain alternatives and the genesis configuration.

use cle_coin::account::AccountId;
use cle_coin::chain_spec::{testnet_genesis, Alternative, ENDOWMENT};
use cle_coin::pow_params::Difficulty;

fn acct(b: u8) -> AccountId {
    AccountId::new([b; 32])
}

#[test]
fn alternative_from_strings() {
    assert_eq!(Alternative::from("dev"), Some(Alternative::Development));
    assert_eq!(Alternative::from(""), Some(Alternative::LocalTestnet));
    assert_eq!(Alternative::from("local"), Some(Alternative::LocalTestnet));
    assert_eq!(Alternative::from("mainnet"), None);
}

#[test]
fn testnet_genesis_endows_every_account() {
    let endowed = vec![acct(1), acct(2), acct(3)];
    let g = testnet_genesis(acct(9), endowed.clone(), true);
    assert_eq!(g.sudo_key, acct(9));
    assert_eq!(g.indices, endowed);
    assert_eq!(g.balances.len(), 3);
    for (i, (who, amount)) in g.balances.iter().enumerate() {
        assert_eq!(*who, endowed[i]);
        assert_eq!(*amount, ENDOWMENT);
    }
    assert_eq!(ENDOWMENT, 1u128 << 60);
    assert_eq!(g.pow_params.difficulty, Difficulty::from_u128(5000));
    assert_eq!(g.pow_params.reward, 100);
}

#[test]
fn development_plan() {
    let plan = Alternative::Development.load(acct(9), vec![acct(1), acct(2)]);
    assert_eq!(plan.name, "Development");
    assert_eq!(plan.id, "dev");
    assert!(plan.bootnodes.is_empty());
    assert!(plan.telemetry_endpoint.is_none());
    assert!(plan.protocol_id.is_none());
    assert!(plan.properties.is_none());
    assert_eq!(plan.genesis.sudo_key, acct(9));
}

#[test]
fn local_testnet_plan() {
    let plan = Alternative::LocalTestnet.load(acct(9), vec![acct(1)]);
    assert_eq!(plan.name, "CLE Coin Mainnet");
    assert_eq!(plan.id, "cle_coin");
    assert_eq!(
        plan.bootnodes,
        vec!["/dns4/cleveland.bootnodes.net/tcp/30333/p2p/QmPQwJBLMZTsJxFC4AFEGAiXSN9R49aJ8B2UNE6FaLdhFd"]
    );
    assert_eq!(
        plan.telemetry_endpoint,
        Some(("wss://telemetry.polkadot.io/submit/", 1))
    );
    assert_eq!(plan.protocol_id, Some("cle"));
    let props = plan.properties.expect("the local testnet advertises its token");
    assert_eq!(props.token_decimals, 12);
    assert_eq!(props.token_symbol, "CLE");
}

#[test]
fn seed_lists_per_alternative() {
    let dev = Alternative::Development.endowed_seeds();
    assert_eq!(dev, vec!["Alice", "Bob", "Alice//stash", "Bob//stash"]);
    let local = Alternative::LocalTestnet.endowed_seeds();
    assert_eq!(local.len(), 12);
    assert_eq!(local[0], "Alice");
    assert_eq!(local[5], "Ferdie");
    assert_eq!(local[11], "Ferdie//stash");
    assert_eq!(Alternative::Development.root_seed(), "Alice");
    assert_eq!(Alternative::LocalTestnet.root_seed(), "Alice");
}
