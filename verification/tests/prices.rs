use price_oracle::{
    calculate_usd_price, usd_price_fits, Address, Effect, OracleEnv, OracleError, PriceDataPoint,
    PriceOracleContract, PricePoint, SourceReputation, Storage, TtlWindow, API_VERSION,
};

const CONTRACT: Address = Address { kind: 1, hi: 7, lo: 7 };
const ADMIN: Address = Address { kind: 0, hi: 1, lo: 1 };
const SOURCE: Address = Address { kind: 0, hi: u128::MAX, lo: 2 };
const OTHER: Address = Address { kind: 0, hi: 3, lo: u128::MAX };

fn deployed() -> OracleEnv {
    let mut env = OracleEnv::new(soroban_sdk::Env::default(), CONTRACT);
    assert_eq!(PriceOracleContract::initialize(&mut env, ADMIN), Ok(()));
    env.begin(1_000, vec![ADMIN, SOURCE, OTHER]);
    assert_eq!(
        PriceOracleContract::add_oracle_source(&mut env, ADMIN, SOURCE, "feed".to_string()),
        Ok(())
    );
    env
}

/// More than `threshold_bps` basis points away from the previous price.
fn too_far(price: i128, previous: i128, threshold_bps: u32) -> bool {
    (price - previous).abs() * 10_000 > previous * threshold_bps as i128
}

/// Counts the submissions of the source.
fn one_more(env: &OracleEnv, source: &Address, _: i128, _: &String, _: u64) -> SourceReputation {
    let count = match env.storage.get_source_reputation(source) {
        Some(kept) => kept.record[0],
        None => 0,
    };
    SourceReputation { record: vec![count + 1] }
}

fn submit(
    env: &mut OracleEnv,
    source: Address,
    asset: &str,
    price: i128,
    decimals: u32,
    timestamp: u64,
) -> Result<PriceDataPoint, OracleError> {
    PriceOracleContract::submit_price(
        env,
        source,
        asset.to_string(),
        price,
        decimals,
        timestamp,
        too_far,
        one_more,
    )
}

fn usd_of(env: &OracleEnv, asset: &str) -> Option<i128> {
    PriceOracleContract::get_price(env, asset.to_string()).unwrap().price_usd
}

#[test]
fn api_version_is_stable() {
    assert_eq!(API_VERSION, 1);
    assert_eq!(PriceOracleContract::get_api_version(), 1);
}

#[test]
fn initialization_happens_once() {
    let mut env = deployed();
    assert_eq!(
        PriceOracleContract::initialize(&mut env, OTHER),
        Err(OracleError::AlreadyInitialized)
    );
    assert_eq!(env.storage.get_admin(), Some(ADMIN));
    assert_eq!(env.storage.get_storage_layout_version(), Some(1));
}

#[test]
fn submitted_price_is_read_back() {
    let mut env = deployed();
    let submitted = submit(&mut env, SOURCE, "BTC", 6_500_000, 2, 99).unwrap();
    let expected = PriceDataPoint {
        asset: "BTC".to_string(),
        price: 6_500_000,
        decimals: 2,
        timestamp: 99,
        source: SOURCE,
    };
    assert_eq!(submitted, expected);
    let price = PriceOracleContract::get_price(&env, "BTC".to_string()).unwrap();
    assert_eq!(price.asset, "BTC");
    assert_eq!(price.price, 6_500_000);
    assert_eq!(price.decimals, 2);
    assert_eq!(price.timestamp, 99);
    assert_eq!(price.source, SOURCE);
    assert_eq!(price.num_sources, 1);
    assert!(!price.is_trusted);
    assert_eq!(price.price_usd, None);
    assert_eq!(
        PriceOracleContract::get_price_history(&env, "BTC".to_string(), 1),
        vec![expected]
    );
    assert_eq!(
        env.effects,
        vec![Effect::PriceSubmitted {
            asset: "BTC".to_string(),
            source: SOURCE,
            price: 6_500_000,
            timestamp: 99,
        }]
    );
}

#[test]
fn unknown_asset_has_no_price() {
    let env = deployed();
    assert_eq!(PriceOracleContract::get_price(&env, "ETH".to_string()), None);
    assert!(PriceOracleContract::get_price_history(&env, "ETH".to_string(), 9).is_empty());
    assert!(PriceOracleContract::get_assets(&env).is_empty());
}

#[test]
fn unregistered_source_is_refused() {
    let mut env = deployed();
    assert_eq!(
        submit(&mut env, OTHER, "BTC", 1, 0, 0),
        Err(OracleError::UnauthorizedSource)
    );
    assert_eq!(PriceOracleContract::get_price(&env, "BTC".to_string()), None);
    assert!(env.effects.is_empty());
}

#[test]
fn struck_off_source_is_refused() {
    let mut env = deployed();
    assert!(submit(&mut env, SOURCE, "BTC", 1, 0, 0).is_ok());
    assert_eq!(PriceOracleContract::remove_oracle_source(&mut env, ADMIN, SOURCE), Ok(()));
    assert_eq!(
        submit(&mut env, SOURCE, "BTC", 1, 0, 0),
        Err(OracleError::UnauthorizedSource)
    );
}

#[test]
fn negative_price_is_refused_and_zero_is_not() {
    let mut env = deployed();
    assert_eq!(submit(&mut env, SOURCE, "BTC", -1, 0, 0), Err(OracleError::InvalidPrice));
    assert!(submit(&mut env, SOURCE, "BTC", 0, 0, 0).is_ok());
}

#[test]
fn deviation_is_checked_against_the_latest_price() {
    let mut env = deployed();
    assert_eq!(PriceOracleContract::set_deviation_threshold(&mut env, ADMIN, 1_000), Ok(()));
    assert_eq!(PriceOracleContract::get_deviation_threshold(&env), Some(1_000));
    assert!(submit(&mut env, SOURCE, "BTC", 100, 0, 1).is_ok());
    assert_eq!(
        submit(&mut env, SOURCE, "BTC", 111, 0, 2),
        Err(OracleError::PriceDeviationTooLarge)
    );
    assert!(submit(&mut env, SOURCE, "BTC", 110, 0, 3).is_ok());
    assert!(submit(&mut env, SOURCE, "BTC", 121, 0, 4).is_ok());
    assert!(submit(&mut env, SOURCE, "ETH", 9_999, 0, 5).is_ok());
}

#[test]
fn without_a_threshold_no_deviation_is_too_large() {
    let mut env = deployed();
    assert_eq!(PriceOracleContract::get_deviation_threshold(&env), None);
    assert!(submit(&mut env, SOURCE, "BTC", 1, 0, 1).is_ok());
    assert!(submit(&mut env, SOURCE, "BTC", 1_000_000, 0, 2).is_ok());
}

#[test]
fn admission_follows_the_verdict_on_the_deviation() {
    let mut env = deployed();
    let asset = "BTC".to_string();
    assert_eq!(
        PriceOracleContract::admit_submission(&env, &SOURCE, &asset, 5, true),
        Ok(())
    );
    PriceOracleContract::set_deviation_threshold(&mut env, ADMIN, 1).unwrap();
    assert!(submit(&mut env, SOURCE, "BTC", 5, 0, 0).is_ok());
    assert_eq!(
        PriceOracleContract::admit_submission(&env, &SOURCE, &asset, 5, true),
        Err(OracleError::PriceDeviationTooLarge)
    );
    assert_eq!(
        PriceOracleContract::admit_submission(&env, &SOURCE, &asset, 5, false),
        Ok(())
    );
}

#[test]
fn reputation_is_updated_by_accepted_submissions_only() {
    let mut env = deployed();
    let same = |_: &OracleEnv, kept: SourceReputation| kept;
    assert_eq!(PriceOracleContract::get_source_reputation(&env, SOURCE, same), None);
    assert!(submit(&mut env, SOURCE, "BTC", 1, 0, 0).is_ok());
    assert!(submit(&mut env, SOURCE, "BTC", -1, 0, 0).is_err());
    assert!(submit(&mut env, SOURCE, "BTC", 2, 0, 0).is_ok());
    assert_eq!(
        PriceOracleContract::get_source_reputation(&env, SOURCE, same),
        Some(SourceReputation { record: vec![2] })
    );
    let halved = |_: &OracleEnv, kept: SourceReputation| SourceReputation {
        record: vec![kept.record[0] / 2],
    };
    assert_eq!(
        PriceOracleContract::get_source_reputation(&env, SOURCE, halved),
        Some(SourceReputation { record: vec![1] })
    );
}

#[test]
fn reset_reputation_is_forgotten() {
    let mut env = deployed();
    let same = |_: &OracleEnv, kept: SourceReputation| kept;
    assert!(submit(&mut env, SOURCE, "BTC", 1, 0, 0).is_ok());
    assert_eq!(
        PriceOracleContract::reset_reputation(&mut env, OTHER, SOURCE),
        Err(OracleError::Unauthorized)
    );
    assert_eq!(PriceOracleContract::reset_reputation(&mut env, ADMIN, SOURCE), Ok(()));
    assert_eq!(PriceOracleContract::get_source_reputation(&env, SOURCE, same), None);
}

#[test]
fn history_query_gives_the_last_prices() {
    let mut env = deployed();
    for i in 0..5u64 {
        assert!(submit(&mut env, SOURCE, "BTC", i128::MAX - i as i128, 3, i).is_ok());
    }
    assert!(submit(&mut env, SOURCE, "ETH", 7, 0, 9).is_ok());
    let prices = |limit: u32| -> Vec<i128> {
        PriceOracleContract::get_price_history(&env, "BTC".to_string(), limit)
            .iter()
            .map(|p| i128::MAX - p.price)
            .collect()
    };
    assert_eq!(prices(0), Vec::<i128>::new());
    assert_eq!(prices(2), vec![3, 4]);
    assert_eq!(prices(5), vec![0, 1, 2, 3, 4]);
    assert_eq!(prices(u32::MAX), vec![0, 1, 2, 3, 4]);
    let last = &PriceOracleContract::get_price_history(&env, "BTC".to_string(), 1)[0];
    assert_eq!(last.decimals, 3);
    assert_eq!(last.timestamp, 4);
    assert_eq!(last.source, SOURCE);
    assert_eq!(PriceOracleContract::get_assets(&env), vec!["BTC", "ETH"]);
}

#[test]
fn dollar_value_of_xlm_is_its_price() {
    let mut env = deployed();
    assert!(submit(&mut env, SOURCE, "XLM", 12_345, 5, 0).is_ok());
    assert_eq!(usd_of(&env, "XLM"), Some(12_345));
}

#[test]
fn dollar_value_of_usdc_is_one() {
    let mut env = deployed();
    assert!(submit(&mut env, SOURCE, "USDC", 99, 7, 0).is_ok());
    assert_eq!(usd_of(&env, "USDC"), Some(10_000_000));
}

#[test]
fn dollar_value_goes_through_xlm() {
    let mut env = deployed();
    assert!(submit(&mut env, SOURCE, "BTC", 1_000, 2, 0).is_ok());
    assert_eq!(usd_of(&env, "BTC"), None);
    assert!(submit(&mut env, SOURCE, "XLM", 1_255, 4, 0).is_ok());
    assert_eq!(usd_of(&env, "BTC"), Some(125));
    assert!(submit(&mut env, SOURCE, "USDC", 1, 0, 0).is_ok());
    assert_eq!(usd_of(&env, "BTC"), Some(125));
}

#[test]
fn dollar_value_is_rounded_toward_zero() {
    let mut storage = Storage::new();
    let rate = PricePoint { price: 3, decimals: 1, timestamp: 0, source: SOURCE };
    storage.set_latest_price(&"XLM".to_string(), rate);
    let asset = "BTC".to_string();
    assert_eq!(calculate_usd_price(&storage, &asset, 9, 0), Some(2));
    assert_eq!(calculate_usd_price(&storage, &asset, -9, 0), Some(-2));
    assert_eq!(calculate_usd_price(&storage, &"USDC".to_string(), 10, 38), Some(3));
    let scale = PricePoint { price: 1, decimals: 38, timestamp: 0, source: SOURCE };
    storage.set_latest_price(&"XLM".to_string(), scale);
    assert_eq!(calculate_usd_price(&storage, &asset, i128::MAX, 0), Some(1));
}

#[test]
fn trust_in_an_asset_is_set_and_withdrawn() {
    let mut env = deployed();
    assert!(submit(&mut env, SOURCE, "BTC", 1, 0, 0).is_ok());
    assert_eq!(
        PriceOracleContract::set_trusted_asset(&mut env, OTHER, "BTC".to_string(), true),
        Err(OracleError::Unauthorized)
    );
    let trusted = |env: &OracleEnv| {
        PriceOracleContract::get_price(env, "BTC".to_string()).unwrap().is_trusted
    };
    assert!(!trusted(&env));
    PriceOracleContract::set_trusted_asset(&mut env, ADMIN, "BTC".to_string(), true).unwrap();
    assert!(trusted(&env));
    PriceOracleContract::set_trusted_asset(&mut env, ADMIN, "BTC".to_string(), false).unwrap();
    assert!(!trusted(&env));
}

#[test]
fn sources_are_counted_once_each() {
    let mut env = deployed();
    assert!(submit(&mut env, SOURCE, "BTC", 1, 0, 0).is_ok());
    let count = |env: &OracleEnv| {
        PriceOracleContract::get_price(env, "BTC".to_string()).unwrap().num_sources
    };
    PriceOracleContract::add_oracle_source(&mut env, ADMIN, OTHER, "a".to_string()).unwrap();
    PriceOracleContract::add_oracle_source(&mut env, ADMIN, OTHER, "b".to_string()).unwrap();
    assert_eq!(count(&env), 2);
    assert_eq!(env.storage.get_source_name(&OTHER), Some("b".to_string()));
    PriceOracleContract::remove_oracle_source(&mut env, ADMIN, SOURCE).unwrap();
    assert_eq!(count(&env), 1);
    assert_eq!(env.storage.get_source_name(&SOURCE), None);
}

#[test]
fn only_the_admin_configures() {
    let mut env = deployed();
    let no = Err(OracleError::Unauthorized);
    assert_eq!(PriceOracleContract::set_deviation_threshold(&mut env, OTHER, 1), no);
    assert_eq!(
        PriceOracleContract::add_oracle_source(&mut env, OTHER, OTHER, "x".to_string()),
        no
    );
    assert_eq!(PriceOracleContract::remove_oracle_source(&mut env, OTHER, SOURCE), no);
    assert_eq!(PriceOracleContract::init_multisig(&mut env, OTHER, vec![OTHER], 1), no);
    assert!(env.storage.is_authorized_source(&SOURCE));
    assert!(!env.storage.is_authorized_source(&OTHER));
}

#[test]
fn rent_is_paid_for_the_instance_and_every_history() {
    let mut env = deployed();
    assert!(submit(&mut env, SOURCE, "BTC", 1, 0, 0).is_ok());
    assert!(submit(&mut env, SOURCE, "ETH", 1, 0, 0).is_ok());
    assert!(submit(&mut env, SOURCE, "BTC", 2, 0, 0).is_ok());
    env.begin(2_000, vec![]);
    PriceOracleContract::extend_storage_ttl(&mut env);
    PriceOracleContract::extend_instance_ttl(&mut env, 10, 20);
    PriceOracleContract::extend_price_history_ttl(&mut env, "ETH".to_string(), 30, 40);
    assert_eq!(
        env.effects,
        vec![
            Effect::ExtendInstanceTtl { window: None },
            Effect::ExtendHistoryTtl { asset: "BTC".to_string(), window: None },
            Effect::ExtendHistoryTtl { asset: "ETH".to_string(), window: None },
            Effect::ExtendInstanceTtl {
                window: Some(TtlWindow { threshold: 10, extend_to: 20 }),
            },
            Effect::ExtendHistoryTtl {
                asset: "ETH".to_string(),
                window: Some(TtlWindow { threshold: 30, extend_to: 40 }),
            },
        ]
    );
    assert_eq!(PriceOracleContract::get_assets(&env), vec!["BTC", "ETH"]);
}

#[test]
fn invocation_starts_with_its_own_authorizations() {
    let mut env = deployed();
    assert!(env.has_authorized(&SOURCE));
    assert!(submit(&mut env, SOURCE, "BTC", 1, 0, 0).is_ok());
    env.begin(3_000, vec![OTHER]);
    assert!(!env.has_authorized(&SOURCE));
    assert!(env.has_authorized(&OTHER));
    assert!(env.effects.is_empty());
    assert_eq!(env.timestamp, 3_000);
}

#[test]
fn numbers_of_a_dollar_value_can_be_too_large() {
    let mut storage = Storage::new();
    let (btc, xlm, usdc) = ("BTC".to_string(), "XLM".to_string(), "USDC".to_string());
    let point = |price: i128, decimals: u32| PricePoint {
        price,
        decimals,
        timestamp: 0,
        source: SOURCE,
    };
    assert!(usd_price_fits(&storage, &btc, i128::MAX, u32::MAX));
    storage.set_latest_price(&xlm, point(2, 38));
    assert!(usd_price_fits(&storage, &xlm, i128::MAX, u32::MAX));
    assert!(usd_price_fits(&storage, &btc, i128::MAX / 2, 0));
    assert!(!usd_price_fits(&storage, &btc, i128::MAX / 2 + 1, 0));
    storage.set_latest_price(&xlm, point(2, 39));
    assert!(!usd_price_fits(&storage, &btc, 1, 0));
    storage.set_latest_price(&usdc, point(1, 0));
    assert!(usd_price_fits(&storage, &usdc, 1, 38));
    assert!(!usd_price_fits(&storage, &usdc, 1, 39));
}
