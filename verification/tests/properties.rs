use price_oracle::{
    Address, Effect, OracleEnv, PriceOracleContract, ProposalAction, SourceReputation,
};

const CONTRACT: Address = Address { kind: 1, hi: 7, lo: 7 };
const ADMIN: Address = Address { kind: 0, hi: 1, lo: 1 };
const ANN: Address = Address { kind: 0, hi: 2, lo: 2 };
const BOB: Address = Address { kind: 0, hi: 3, lo: 3 };

fn governed() -> OracleEnv {
    let mut env = OracleEnv::new(soroban_sdk::Env::default(), CONTRACT);
    PriceOracleContract::initialize(&mut env, ADMIN).unwrap();
    env.begin(10, vec![ADMIN, ANN, BOB]);
    PriceOracleContract::add_oracle_source(&mut env, ADMIN, ANN, "a".to_string()).unwrap();
    PriceOracleContract::init_multisig(&mut env, ADMIN, vec![ANN, BOB], 2).unwrap();
    env
}

fn submit(env: &mut OracleEnv, asset: &str, price: i128) {
    PriceOracleContract::submit_price(
        env,
        ANN,
        asset.to_string(),
        price,
        0,
        0,
        |_: i128, _: i128, _: u32| false,
        |_: &OracleEnv, _: &Address, _: i128, _: &String, _: u64| SourceReputation {
            record: vec![],
        },
    )
    .unwrap();
}

#[test]
fn latest_price_is_the_last_of_the_history() {
    let mut env = governed();
    for (asset, price) in [("BTC", 5), ("ETH", 6), ("BTC", 7)] {
        submit(&mut env, asset, price);
    }
    let assets = PriceOracleContract::get_assets(&env);
    assert_eq!(assets, vec!["BTC", "ETH"]);
    for asset in assets {
        let last = PriceOracleContract::get_price_history(&env, asset.clone(), 1);
        let latest = PriceOracleContract::get_price(&env, asset.clone()).unwrap();
        assert_eq!(last[0].price, latest.price);
        assert!(latest.price >= 0);
    }
}

#[test]
fn recorded_prices_stay() {
    let mut env = governed();
    submit(&mut env, "BTC", 5);
    submit(&mut env, "BTC", 6);
    let before = PriceOracleContract::get_price_history(&env, "BTC".to_string(), 9);
    PriceOracleContract::remove_oracle_source(&mut env, ADMIN, BOB).unwrap();
    submit(&mut env, "BTC", 7);
    submit(&mut env, "ETH", 8);
    let after = PriceOracleContract::get_price_history(&env, "BTC".to_string(), 9);
    assert_eq!(after[0..2], before[..]);
    assert_eq!(after.len(), 3);
}

#[test]
fn accepted_threshold_can_be_reached() {
    let mut env = governed();
    let id = PriceOracleContract::create_proposal(&mut env, ANN, ProposalAction::Pause).unwrap();
    PriceOracleContract::approve_proposal(&mut env, BOB, id).unwrap();
    assert_eq!(PriceOracleContract::execute_proposal(&mut env, ANN, id), Ok(()));
    let approvals = PriceOracleContract::get_proposal(&env, id).unwrap().approvals.to_addresses();
    assert_eq!(approvals, vec![ANN, BOB]);
}

#[test]
fn effects_only_grow() {
    let mut env = governed();
    submit(&mut env, "BTC", 5);
    let before = env.effects.clone();
    PriceOracleContract::extend_instance_ttl(&mut env, 1, 2);
    PriceOracleContract::stake(&mut env, ANN, 3, BOB);
    assert_eq!(env.effects[0..1], before[..]);
    assert_eq!(env.effects.len(), 4);
    assert_eq!(env.effects[3], Effect::SourceStaked { source: ANN, amount: 3 });
}
