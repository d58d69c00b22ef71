use price_oracle::{
    Address, BatchPriceEntry, Effect, MerkleProof, OracleEnv, OracleError, PriceOracleContract,
};

const CONTRACT: Address = Address { kind: 1, hi: 7, lo: 7 };
const ADMIN: Address = Address { kind: 0, hi: 1, lo: 1 };
const SOURCE: Address = Address { kind: 0, hi: 2, lo: 2 };
const OTHER: Address = Address { kind: 0, hi: 3, lo: 3 };

fn deployed() -> OracleEnv {
    let mut env = OracleEnv::new(soroban_sdk::Env::default(), CONTRACT);
    assert_eq!(PriceOracleContract::initialize(&mut env, ADMIN), Ok(()));
    env.begin(1_000, vec![ADMIN, SOURCE, OTHER]);
    assert_eq!(
        PriceOracleContract::add_oracle_source(&mut env, ADMIN, SOURCE, "feed".to_string()),
        Ok(())
    );
    env
}

fn root(first: u8) -> Vec<u8> {
    let mut root = vec![0; 32];
    root[0] = first;
    root
}

fn entry(asset: &str, price: i128) -> BatchPriceEntry {
    BatchPriceEntry {
        asset: asset.to_string(),
        price,
        decimals: 4,
        timestamp: 77,
        source: SOURCE,
    }
}

fn inclusion(leaf_index: u32) -> MerkleProof {
    MerkleProof { leaf_index, siblings: vec![vec![1]] }
}

/// The root that the tests commit to starts with the number of siblings.
fn leads_to(_: &BatchPriceEntry, _: u32, siblings: &Vec<Vec<u8>>, root: &Vec<u8>) -> bool {
    root.len() == 32 && root[0] as usize == siblings.len()
}

#[test]
fn batch_is_committed_under_the_next_nonce() {
    let mut env = deployed();
    assert_eq!(PriceOracleContract::get_batch_nonce(&env), 0);
    assert_eq!(PriceOracleContract::submit_batch(&mut env, SOURCE, 0, root(1)), Ok(1));
    assert_eq!(PriceOracleContract::get_batch_nonce(&env), 1);
    assert_eq!(env.storage.get_batch_root(0), Some(root(1)));
    assert_eq!(
        env.effects,
        vec![Effect::BatchSubmitted { source: SOURCE, nonce: 0, root: root(1) }]
    );
}

#[test]
fn batch_nonce_is_used_once() {
    let mut env = deployed();
    assert_eq!(PriceOracleContract::submit_batch(&mut env, SOURCE, 0, root(1)), Ok(1));
    assert_eq!(
        PriceOracleContract::submit_batch(&mut env, SOURCE, 0, root(2)),
        Err(OracleError::BatchNonceMismatch)
    );
    assert_eq!(
        PriceOracleContract::submit_batch(&mut env, SOURCE, 2, root(2)),
        Err(OracleError::BatchNonceMismatch)
    );
    assert_eq!(env.storage.get_batch_root(0), Some(root(1)));
    assert_eq!(PriceOracleContract::submit_batch(&mut env, SOURCE, 1, root(2)), Ok(2));
    assert_eq!(env.storage.get_batch_root(1), Some(root(2)));
}

#[test]
fn batch_of_an_unregistered_source_is_refused() {
    let mut env = deployed();
    assert_eq!(
        PriceOracleContract::submit_batch(&mut env, OTHER, 0, root(1)),
        Err(OracleError::UnauthorizedSource)
    );
}

#[test]
fn batch_root_has_32_bytes() {
    let mut env = deployed();
    for len in [0, 31, 33] {
        assert_eq!(
            PriceOracleContract::submit_batch(&mut env, SOURCE, 0, vec![0; len]),
            Err(OracleError::InvalidMerkleProof)
        );
    }
    assert_eq!(PriceOracleContract::get_batch_nonce(&env), 0);
}

#[test]
fn committed_price_is_applied_and_read_back() {
    let mut env = deployed();
    PriceOracleContract::submit_batch(&mut env, SOURCE, 0, root(1)).unwrap();
    env.begin(2_000, vec![]);
    let applied = PriceOracleContract::apply_batch_entry(
        &mut env,
        0,
        entry("BTC", 42),
        inclusion(3),
        leads_to,
    )
    .unwrap();
    assert_eq!(applied.asset, "BTC");
    assert_eq!(applied.price, 42);
    assert_eq!(applied.decimals, 4);
    assert_eq!(applied.timestamp, 77);
    assert_eq!(applied.source, SOURCE);
    let price = PriceOracleContract::get_price(&env, "BTC".to_string()).unwrap();
    assert_eq!(price.price, 42);
    assert_eq!(
        PriceOracleContract::get_price_history(&env, "BTC".to_string(), 9),
        vec![applied]
    );
    assert_eq!(
        env.effects,
        vec![Effect::BatchEntryApplied {
            asset: "BTC".to_string(),
            batch_nonce: 0,
            price: 42,
        }]
    );
}

#[test]
fn leaf_is_applied_once() {
    let mut env = deployed();
    PriceOracleContract::submit_batch(&mut env, SOURCE, 0, root(1)).unwrap();
    PriceOracleContract::submit_batch(&mut env, SOURCE, 1, root(1)).unwrap();
    let mut apply = |nonce: u64, leaf: u32| {
        PriceOracleContract::apply_batch_entry(
            &mut env,
            nonce,
            entry("BTC", 42),
            inclusion(leaf),
            leads_to,
        )
        .map(|p| p.price)
    };
    assert_eq!(apply(0, 3), Ok(42));
    assert_eq!(apply(0, 3), Err(OracleError::BatchEntryAlreadyApplied));
    assert_eq!(apply(0, 4), Ok(42));
    assert_eq!(apply(1, 3), Ok(42));
    assert_eq!(
        PriceOracleContract::get_price_history(&env, "BTC".to_string(), 9).len(),
        3
    );
    assert!(env.storage.is_batch_leaf_applied(0, 3));
    assert!(!env.storage.is_batch_leaf_applied(1, 4));
}

#[test]
fn price_of_an_unknown_batch_is_refused() {
    let mut env = deployed();
    assert_eq!(
        PriceOracleContract::apply_batch_entry(&mut env, 0, entry("BTC", -1), inclusion(0), leads_to),
        Err(OracleError::BatchRootNotFound)
    );
}

#[test]
fn negative_price_of_a_batch_is_refused() {
    let mut env = deployed();
    PriceOracleContract::submit_batch(&mut env, SOURCE, 0, root(1)).unwrap();
    assert_eq!(
        PriceOracleContract::apply_batch_entry(&mut env, 0, entry("BTC", -1), inclusion(0), leads_to),
        Err(OracleError::InvalidPrice)
    );
}

#[test]
fn proof_that_does_not_hold_is_refused() {
    let mut env = deployed();
    PriceOracleContract::submit_batch(&mut env, SOURCE, 0, root(2)).unwrap();
    assert_eq!(
        PriceOracleContract::apply_batch_entry(&mut env, 0, entry("BTC", 1), inclusion(0), leads_to),
        Err(OracleError::InvalidMerkleProof)
    );
    assert!(!env.storage.is_batch_leaf_applied(0, 0));
    assert_eq!(PriceOracleContract::get_price(&env, "BTC".to_string()), None);
}

#[test]
fn settlement_follows_the_verdict_on_the_proof() {
    let mut env = deployed();
    PriceOracleContract::submit_batch(&mut env, SOURCE, 0, root(2)).unwrap();
    let entry = entry("BTC", 1);
    assert_eq!(
        PriceOracleContract::settle_batch_entry(&mut env, 0, &entry, 5, false),
        Err(OracleError::InvalidMerkleProof)
    );
    assert!(PriceOracleContract::settle_batch_entry(&mut env, 0, &entry, 5, true).is_ok());
    assert_eq!(
        PriceOracleContract::settle_batch_entry(&mut env, 0, &entry, 5, false),
        Err(OracleError::InvalidMerkleProof)
    );
    assert_eq!(
        PriceOracleContract::settle_batch_entry(&mut env, 0, &entry, 5, true),
        Err(OracleError::BatchEntryAlreadyApplied)
    );
}

#[test]
fn inclusion_can_be_checked_without_applying() {
    let mut env = deployed();
    let holds = |env: &OracleEnv, nonce: u64| {
        PriceOracleContract::verify_batch_proof(env, nonce, entry("BTC", -5), inclusion(0), leads_to)
    };
    assert!(!holds(&env, 0));
    PriceOracleContract::submit_batch(&mut env, SOURCE, 0, root(1)).unwrap();
    PriceOracleContract::submit_batch(&mut env, SOURCE, 1, root(2)).unwrap();
    assert!(holds(&env, 0));
    assert!(!holds(&env, 1));
    assert!(!env.storage.is_batch_leaf_applied(0, 0));
}
