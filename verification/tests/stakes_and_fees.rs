use price_oracle::{Address, Effect, OracleEnv, PriceOracleContract, Table};

const CONTRACT: Address = Address { kind: 1, hi: 7, lo: 7 };
const ADMIN: Address = Address { kind: 0, hi: 1, lo: 1 };
const SOURCE: Address = Address { kind: 0, hi: 2, lo: 2 };
const OTHER: Address = Address { kind: 0, hi: 3, lo: 3 };
const TOKEN: Address = Address { kind: 1, hi: 4, lo: 4 };

fn deployed() -> OracleEnv {
    let mut env = OracleEnv::new(soroban_sdk::Env::default(), CONTRACT);
    assert_eq!(PriceOracleContract::initialize(&mut env, ADMIN), Ok(()));
    env.begin(1_000, vec![ADMIN, SOURCE]);
    env
}

#[test]
fn stake_moves_tokens_and_adds_up() {
    let mut env = deployed();
    assert_eq!(PriceOracleContract::get_stake_balance(&env, SOURCE), 0);
    PriceOracleContract::stake(&mut env, SOURCE, 30, TOKEN);
    PriceOracleContract::stake(&mut env, SOURCE, 12, TOKEN);
    assert_eq!(PriceOracleContract::get_stake_balance(&env, SOURCE), 42);
    assert_eq!(PriceOracleContract::get_stake_balance(&env, OTHER), 0);
    assert_eq!(
        env.effects[0..2],
        [
            Effect::Transfer { token: TOKEN, from: SOURCE, to: CONTRACT, amount: 30 },
            Effect::SourceStaked { source: SOURCE, amount: 30 },
        ]
    );
}

#[test]
fn slash_takes_no_more_than_the_stake() {
    let mut env = deployed();
    PriceOracleContract::stake(&mut env, SOURCE, 30, TOKEN);
    env.begin(2_000, vec![ADMIN]);
    PriceOracleContract::slash(&mut env, SOURCE, 10, "late".to_string());
    assert_eq!(PriceOracleContract::get_stake_balance(&env, SOURCE), 20);
    PriceOracleContract::slash(&mut env, SOURCE, 50, "wrong".to_string());
    assert_eq!(PriceOracleContract::get_stake_balance(&env, SOURCE), 0);
    assert_eq!(env.storage.get_slash_count(&SOURCE), 2);
    assert_eq!(env.storage.get_slash_count(&OTHER), 0);
    assert_eq!(
        env.effects,
        vec![
            Effect::SourceSlashed { source: SOURCE, reason: "late".to_string(), slashed: 10 },
            Effect::SourceSlashed { source: SOURCE, reason: "wrong".to_string(), slashed: 20 },
        ]
    );
}

#[test]
fn slash_undoes_a_stake() {
    let mut env = deployed();
    PriceOracleContract::stake(&mut env, SOURCE, 5, TOKEN);
    PriceOracleContract::stake(&mut env, SOURCE, 37, TOKEN);
    PriceOracleContract::slash(&mut env, SOURCE, 37, "back".to_string());
    assert_eq!(PriceOracleContract::get_stake_balance(&env, SOURCE), 5);
}

#[test]
fn fees_are_paid_out_once() {
    let mut env = deployed();
    PriceOracleContract::withdraw_fees(&mut env, OTHER);
    assert!(env.effects.is_empty());
    env.storage.set_fee_balance(77);
    PriceOracleContract::withdraw_fees(&mut env, OTHER);
    PriceOracleContract::withdraw_fees(&mut env, OTHER);
    assert_eq!(
        env.effects,
        vec![Effect::Transfer { token: OTHER, from: CONTRACT, to: OTHER, amount: 77 }]
    );
    assert_eq!(env.storage.get_fee_balance(), 0);
}

#[test]
fn query_fee_is_kept() {
    let mut env = deployed();
    assert_eq!(PriceOracleContract::get_query_fee(&env), 0);
    PriceOracleContract::set_query_fee(&mut env, -3);
    assert_eq!(PriceOracleContract::get_query_fee(&env), -3);
}

#[test]
fn whitelist_keeps_the_status() {
    let mut env = deployed();
    assert_eq!(env.storage.get_whitelist(&OTHER), None);
    PriceOracleContract::set_whitelist(&mut env, OTHER, true);
    assert_eq!(env.storage.get_whitelist(&OTHER), Some(true));
    PriceOracleContract::set_whitelist(&mut env, OTHER, false);
    assert_eq!(env.storage.get_whitelist(&OTHER), Some(false));
}

#[test]
fn table_has_one_entry_for_each_key() {
    let mut table: Table<String, u32> = Table::new();
    assert_eq!(table.len(), 0);
    table.insert("a".to_string(), 1);
    table.insert("b".to_string(), 2);
    table.insert("a".to_string(), 3);
    assert_eq!(table.len(), 2);
    assert_eq!(table.get(&"a".to_string()), Some(&3));
    table.remove(&"a".to_string());
    table.remove(&"c".to_string());
    assert_eq!(table.len(), 1);
    assert_eq!(table.get(&"a".to_string()), None);
    assert_eq!(table.get(&"b".to_string()), Some(&2));
}
