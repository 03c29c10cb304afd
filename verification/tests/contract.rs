use starpass::address::{Address, Bytes32};
use starpass::contract::StarPassContract;
use starpass::env::Env;
use starpass::failure::Failure;
use starpass::pricing::{OracleInterface, Quote};
use starpass::types::{Symbol, TierPriceMode};

const CONTRACT: Address = Address::Contract(Bytes32 { high: 0, low: 1 });
const ADMIN: Address = Address::Account(Bytes32 { high: 0, low: 2 });
const CREATOR: Address = Address::Account(Bytes32 { high: 0, low: 3 });
const FAN: Address = Address::Account(Bytes32 { high: 0, low: 4 });
const TOKEN: Address = Address::Contract(Bytes32 { high: 0, low: 5 });
const ORACLE: Address = Address::Contract(Bytes32 { high: 0, low: 6 });
const IMPOSTOR: Address = Address::Account(Bytes32 { high: 0, low: 7 });

/// An oracle that always gives one answer.
struct MockOracle {
    price: i128,
    timestamp: u64,
}

impl OracleInterface for MockOracle {
    fn get_price(&self, _oracle: Address, _token: Address) -> Quote {
        (self.price, self.timestamp)
    }
}

/// An oracle that must not be asked.
struct NoOracle;

impl OracleInterface for NoOracle {
    fn get_price(&self, _oracle: Address, _token: Address) -> Quote {
        panic!("the oracle was asked")
    }
}

/// What a call returned, or a panic with what its caller is told.
fn done<T>(result: Result<T, Failure>) -> T {
    match result {
        Ok(value) => value,
        Err(Failure::Abort(reason)) => panic!("{}", reason.message()),
        Err(Failure::Error(reason)) => panic!("error {}", reason.code()),
    }
}

fn setup_env() -> Env {
    let mut env = Env::new(0, CONTRACT);
    done(StarPassContract::initialize(&mut env, ADMIN, TOKEN, 250, 3600));
    env
}

fn tier(env: &mut Env, name: &str, price: i128, duration: u64, max_supply: u32) -> u32 {
    done(StarPassContract::create_tier(
        env,
        CREATOR,
        name.as_bytes().to_vec(),
        price,
        duration,
        max_supply,
        Vec::new(),
    ))
}

fn mint(env: &mut Env, tier_id: u32) -> u64 {
    done(StarPassContract::mint_pass(env, &NoOracle, FAN, tier_id, Vec::new()))
}

fn symbol(text: &str) -> Symbol {
    Symbol::new(text.to_string())
}

fn symbols(list: &[&str]) -> Vec<Symbol> {
    list.iter().map(|text| symbol(text)).collect()
}

fn permitted_tier(env: &mut Env, name: &str, permissions: &[&str]) -> u32 {
    done(StarPassContract::create_tier(
        env,
        CREATOR,
        name.as_bytes().to_vec(),
        1_000_000,
        2_592_000,
        0,
        symbols(permissions),
    ))
}

#[test]
fn test_initialize() {
    let mut env = Env::new(0, CONTRACT);
    done(StarPassContract::initialize(&mut env, ADMIN, TOKEN, 250u32, 3600u64));

    assert_eq!(StarPassContract::get_pass_count(&env), 0);
    assert_eq!(StarPassContract::get_tier_count(&env), 0);
}

#[test]
fn test_register_creator() {
    let mut env = setup_env();

    done(StarPassContract::register_creator(&mut env, CREATOR));
    let profile = done(StarPassContract::get_creator(&env, CREATOR));

    assert_eq!(profile.address, CREATOR);
    assert_eq!(profile.total_earned, 0);
    assert_eq!(profile.pass_count, 0);
}

#[test]
fn test_create_tier() {
    let mut env = setup_env();
    done(StarPassContract::register_creator(&mut env, CREATOR));
    assert_eq!(StarPassContract::has_any_valid_pass(&env, FAN, CREATOR), false);

    let tier_id = tier(&mut env, "Bronze", 1_000_000, 2_592_000, 0);
    mint(&mut env, tier_id);
    assert_eq!(StarPassContract::has_any_valid_pass(&env, FAN, CREATOR), true);

    let now = env.timestamp;
    env.timestamp = now + 2_592_001;
    assert_eq!(StarPassContract::has_any_valid_pass(&env, FAN, CREATOR), false);
}

#[test]
fn test_mint_pass() {
    let mut env = setup_env();
    done(StarPassContract::register_creator(&mut env, CREATOR));
    let tier_id = tier(&mut env, "Silver", 1_000_000, 2_592_000, 0);

    let pass_id = mint(&mut env, tier_id);
    assert_eq!(pass_id, 1);

    let pass = done(StarPassContract::get_pass(&env, pass_id));
    assert_eq!(pass.owner, FAN);
    assert_eq!(pass.tier_id, tier_id);
    assert_eq!(pass.active, true);
}

#[test]
fn test_mint_pass_fixed_price_unaffected() {
    let mut env = setup_env();
    done(StarPassContract::register_creator(&mut env, CREATOR));
    let tier_id = tier(&mut env, "Bronze", 1_000_000, 2_592_000, 0);
    let found = done(StarPassContract::get_tier(&env, tier_id));
    assert_eq!(found.price, TierPriceMode::Fixed(1_000_000));

    let pass_id = mint(&mut env, tier_id);
    let pass = done(StarPassContract::get_pass(&env, pass_id));
    assert_eq!(pass.active, true);
}

fn usd_tier(env: &mut Env) -> u32 {
    done(StarPassContract::create_tier_usd(
        env,
        CREATOR,
        b"USD Tier".to_vec(),
        1000i128,
        2_592_000u64,
        0u32,
        Vec::new(),
    ))
}

#[test]
fn test_mint_pass_usd_denominated_correct_amount() {
    let mut env = setup_env();
    done(StarPassContract::register_creator(&mut env, CREATOR));

    // One base unit of the token is worth 10 USD cents.
    let now = env.timestamp;
    let oracle = MockOracle { price: 10, timestamp: now };
    done(StarPassContract::set_oracle(&mut env, ADMIN, ORACLE));

    // Ten dollars: 1000 * 10_000_000 / 10 = 1_000_000_000 base units.
    let tier_id = usd_tier(&mut env);
    let pass_id = done(StarPassContract::mint_pass(&mut env, &oracle, FAN, tier_id, Vec::new()));
    assert!(done(StarPassContract::get_pass(&env, pass_id)).active);

    env.timestamp = now + 3600 + 1;
    let released = done(StarPassContract::process_unlocked_earnings(&mut env, CREATOR));
    assert_eq!(released, 1u32);
    assert_eq!(StarPassContract::get_creator_balance(&env, CREATOR), 975_000_000);
}

#[test]
#[should_panic(expected = "Oracle data unavailable or stale")]
fn test_mint_pass_stale_oracle_panics() {
    let mut env = setup_env();
    done(StarPassContract::register_creator(&mut env, CREATOR));
    let now = env.timestamp;
    let oracle = MockOracle { price: 10, timestamp: now };
    done(StarPassContract::set_oracle(&mut env, ADMIN, ORACLE));
    let tier_id = usd_tier(&mut env);

    // Beyond the staleness window of 300 seconds.
    env.timestamp = now + 301;
    done(StarPassContract::mint_pass(&mut env, &oracle, FAN, tier_id, Vec::new()));
}

#[test]
#[should_panic(expected = "Oracle data unavailable or stale")]
fn test_mint_pass_oracle_unavailable_panics() {
    let mut env = setup_env();
    done(StarPassContract::register_creator(&mut env, CREATOR));
    let tier_id = usd_tier(&mut env);
    done(StarPassContract::mint_pass(&mut env, &NoOracle, FAN, tier_id, Vec::new()));
}

#[test]
fn test_set_oracle_rejects_non_admin() {
    let mut env = setup_env();
    let result = StarPassContract::set_oracle(&mut env, IMPOSTOR, ORACLE);
    assert!(result.is_err());
}

#[test]
fn test_has_valid_pass() {
    let mut env = setup_env();
    env.timestamp = 1000;
    done(StarPassContract::register_creator(&mut env, CREATOR));
    let tier_id = tier(&mut env, "Bronze", 1_000_000, 2_592_000, 0);

    assert_eq!(StarPassContract::has_valid_pass(&env, FAN, tier_id), false);
    mint(&mut env, tier_id);
    assert_eq!(StarPassContract::has_valid_pass(&env, FAN, tier_id), true);
}

#[test]
fn test_fee_split() {
    let mut env = setup_env();
    done(StarPassContract::register_creator(&mut env, CREATOR));
    let tier_id = tier(&mut env, "Gold", 1_000_000, 2_592_000, 0);

    let now = env.timestamp;
    mint(&mut env, tier_id);
    env.timestamp = now + 3600 + 1;
    let res = done(StarPassContract::process_unlocked_earnings(&mut env, CREATOR));
    assert_eq!(res, 1u32);
    let creator_balance = StarPassContract::get_creator_balance(&env, CREATOR);
    assert_eq!(creator_balance, 975_000);
}

#[test]
fn test_creator_withdraw() {
    let mut env = setup_env();
    done(StarPassContract::register_creator(&mut env, CREATOR));
    let tier_id = tier(&mut env, "Gold", 1_000_000, 2_592_000, 0);

    let start = env.timestamp;
    mint(&mut env, tier_id);
    env.timestamp = start + 3600 + 1;
    let res = done(StarPassContract::process_unlocked_earnings(&mut env, CREATOR));
    assert_eq!(res, 1u32);
    assert_eq!(StarPassContract::get_creator_balance(&env, CREATOR), 975_000);

    done(StarPassContract::withdraw(&mut env, CREATOR));
    assert_eq!(StarPassContract::get_creator_balance(&env, CREATOR), 0);
}

#[test]
fn test_max_supply_enforced() {
    let mut env = setup_env();
    done(StarPassContract::register_creator(&mut env, CREATOR));
    let tier_id = tier(&mut env, "Limited", 1_000_000, 2_592_000, 1);

    mint(&mut env, tier_id);
    let result = StarPassContract::mint_pass(&mut env, &NoOracle, FAN, tier_id, Vec::new());
    assert!(result.is_err());
}

#[test]
fn test_deactivate_tier() {
    let mut env = setup_env();
    done(StarPassContract::register_creator(&mut env, CREATOR));
    let tier_id = tier(&mut env, "Bronze", 1_000_000, 2_592_000, 0);

    done(StarPassContract::deactivate_tier(&mut env, CREATOR, tier_id));
    let found = done(StarPassContract::get_tier(&env, tier_id));
    assert_eq!(found.active, false);

    let result = StarPassContract::mint_pass(&mut env, &NoOracle, FAN, tier_id, Vec::new());
    assert!(result.is_err());
}

#[test]
#[should_panic(expected = "Price must be greater than zero")]
fn test_zero_price_rejected() {
    let mut env = setup_env();
    done(StarPassContract::register_creator(&mut env, CREATOR));
    tier(&mut env, "Free", 0, 2_592_000, 0);
}

#[test]
fn test_update_tier_price() {
    let mut env = setup_env();
    done(StarPassContract::register_creator(&mut env, CREATOR));
    let tier_id = tier(&mut env, "Silver", 1_000_000, 2_592_000, 0);

    done(StarPassContract::update_tier_price(&mut env, CREATOR, tier_id, 2_000_000i128));
    let found = done(StarPassContract::get_tier(&env, tier_id));
    assert_eq!(found.price, TierPriceMode::Fixed(2_000_000));
}

#[test]
fn test_expired_pass_returns_false() {
    let mut env = setup_env();
    done(StarPassContract::register_creator(&mut env, CREATOR));

    let duration = 86_400u64;
    let start = 1_000_000u64;
    let tier_id = tier(&mut env, "Daily", 1_000_000, duration, 0);

    env.timestamp = start;
    mint(&mut env, tier_id);
    assert_eq!(StarPassContract::has_valid_pass(&env, FAN, tier_id), true);

    env.timestamp = start + duration + 1;
    assert_eq!(StarPassContract::has_valid_pass(&env, FAN, tier_id), false);
}

#[test]
fn test_renew_pass_before_expiry() {
    let mut env = setup_env();
    done(StarPassContract::register_creator(&mut env, CREATOR));

    let duration = 2_592_000u64;
    let start = 1_000_000u64;
    env.timestamp = start;
    let tier_id = tier(&mut env, "Bronze", 1_000_000, duration, 0);

    let pass_id = mint(&mut env, tier_id);
    let first_expiry = done(StarPassContract::get_pass(&env, pass_id)).expires_at;
    assert_eq!(first_expiry, start + duration);

    // Renewed well before expiry: extended from the expiry, not from now.
    env.timestamp = start + 1_000;
    let new_expires_at = done(StarPassContract::renew_pass(&mut env, &NoOracle, FAN, pass_id));
    assert_eq!(new_expires_at, first_expiry + duration);
    let pass = done(StarPassContract::get_pass(&env, pass_id));
    assert_eq!(pass.expires_at, new_expires_at);
    assert!(pass.active);

    // The payment is split twice, and no pass is minted.
    env.timestamp = start + 1_000 + 3600 + 1;
    let res = done(StarPassContract::process_unlocked_earnings(&mut env, CREATOR));
    assert_eq!(res, 2u32);
    assert_eq!(StarPassContract::get_creator_balance(&env, CREATOR), 975_000 * 2);
    let profile = done(StarPassContract::get_creator(&env, CREATOR));
    assert_eq!(profile.total_earned, 975_000 * 2);
    assert_eq!(profile.pass_count, 1);
}

#[test]
fn test_renew_pass_after_expiry() {
    let mut env = setup_env();
    done(StarPassContract::register_creator(&mut env, CREATOR));

    let duration = 2_592_000u64;
    let start = 1_000_000u64;
    env.timestamp = start;
    let tier_id = tier(&mut env, "Bronze", 1_000_000, duration, 0);

    let pass_id = mint(&mut env, tier_id);
    let first_expiry = done(StarPassContract::get_pass(&env, pass_id)).expires_at;

    let renew_time = first_expiry + 500;
    env.timestamp = renew_time;
    assert!(!StarPassContract::has_valid_pass(&env, FAN, tier_id));

    let new_expires_at = done(StarPassContract::renew_pass(&mut env, &NoOracle, FAN, pass_id));

    // Extended from now, not from the expiry that has passed.
    assert_eq!(new_expires_at, renew_time + duration);
    let pass = done(StarPassContract::get_pass(&env, pass_id));
    assert_eq!(pass.expires_at, new_expires_at);
    assert!(StarPassContract::has_valid_pass(&env, FAN, tier_id));
}

#[test]
fn test_renew_pass_rejects_non_owner() {
    let mut env = setup_env();
    done(StarPassContract::register_creator(&mut env, CREATOR));
    let tier_id = tier(&mut env, "Bronze", 1_000_000, 2_592_000, 0);
    let pass_id = mint(&mut env, tier_id);

    let result = StarPassContract::renew_pass(&mut env, &NoOracle, IMPOSTOR, pass_id);
    assert!(result.is_err());
}

#[test]
fn test_get_fan_passes() {
    let mut env = setup_env();
    done(StarPassContract::register_creator(&mut env, CREATOR));
    let tier1 = tier(&mut env, "Bronze", 1_000_000, 2_592_000, 0);
    let tier2 = tier(&mut env, "Gold", 2_000_000, 2_592_000, 0);

    mint(&mut env, tier1);
    mint(&mut env, tier2);

    let passes = StarPassContract::get_fan_passes(&env, FAN);
    assert_eq!(passes.len(), 2);
}

#[test]
fn test_fan_pass_details_and_active_passes() {
    let mut env = setup_env();
    done(StarPassContract::register_creator(&mut env, CREATOR));

    let start = 1_000_000u64;
    let long_duration = 604_800u64;
    let short_duration = 86_400u64;
    let tier1 = tier(&mut env, "Annual", 10_000_000, long_duration, 0);
    let tier2 = tier(&mut env, "Daily", 500_000, short_duration, 0);

    env.timestamp = start;
    let short_lived_pass_id = mint(&mut env, tier2);
    env.timestamp = start + short_duration + 1;
    let long_lived_pass_id = mint(&mut env, tier1);

    let all_details = StarPassContract::get_fan_pass_details(&env, FAN);
    assert_eq!(all_details.len(), 2);

    let active_ids = StarPassContract::get_fan_active_passes(&env, FAN);
    assert_eq!(active_ids.len(), 1);
    assert_eq!(active_ids[0], long_lived_pass_id);

    let mut found_short = false;
    let mut found_long = false;
    for pass in all_details.iter() {
        if pass.pass_id == long_lived_pass_id {
            assert!(pass.active);
            assert_eq!(pass.owner, FAN);
            assert_eq!(pass.tier_id, tier1);
            found_long = true;
        } else if pass.pass_id == short_lived_pass_id {
            assert!(pass.active);
            assert_eq!(pass.owner, FAN);
            assert_eq!(pass.tier_id, tier2);
            found_short = true;
        }
    }
    assert!(found_short);
    assert!(found_long);
}

fn create_n_tiers(env: &mut Env, n: u32) -> Vec<u32> {
    (0..n).map(|_| tier(env, "Tier", 1_000_000, 2_592_000, 0)).collect()
}

#[test]
fn test_creator_tiers_page_first_page() {
    let mut env = setup_env();
    done(StarPassContract::register_creator(&mut env, CREATOR));
    create_n_tiers(&mut env, 5);

    let page = done(StarPassContract::get_creator_tiers_page(&env, CREATOR, 0u32, 3u32));
    assert_eq!(page.len(), 3);
    assert_eq!(page[0], 1u32);
    assert_eq!(page[1], 2u32);
    assert_eq!(page[2], 3u32);
}

#[test]
fn test_creator_tiers_page_last_page() {
    let mut env = setup_env();
    done(StarPassContract::register_creator(&mut env, CREATOR));
    create_n_tiers(&mut env, 5);

    let page = done(StarPassContract::get_creator_tiers_page(&env, CREATOR, 3u32, 5u32));
    assert_eq!(page.len(), 2);
    assert_eq!(page[0], 4u32);
    assert_eq!(page[1], 5u32);
}

#[test]
fn test_creator_tiers_page_offset_beyond_end() {
    let mut env = setup_env();
    done(StarPassContract::register_creator(&mut env, CREATOR));
    create_n_tiers(&mut env, 3);

    let page = done(StarPassContract::get_creator_tiers_page(&env, CREATOR, 10u32, 5u32));
    assert_eq!(page.len(), 0);
}

#[test]
#[should_panic(expected = "limit cannot exceed 20")]
fn test_creator_tiers_page_limit_exceeded() {
    let mut env = setup_env();
    done(StarPassContract::register_creator(&mut env, CREATOR));
    done(StarPassContract::get_creator_tiers_page(&env, CREATOR, 0u32, 21u32));
}

#[test]
fn test_creator_pass_count_no_tiers() {
    let mut env = setup_env();
    done(StarPassContract::register_creator(&mut env, CREATOR));
    assert_eq!(done(StarPassContract::get_creator_pass_count(&env, CREATOR)), 0u64);
}

#[test]
fn test_creator_pass_count_sums_minted_across_tiers() {
    let mut env = setup_env();
    done(StarPassContract::register_creator(&mut env, CREATOR));
    let tier_ids = create_n_tiers(&mut env, 3);
    let (tier_a, tier_b, tier_c) = (tier_ids[0], tier_ids[1], tier_ids[2]);

    mint(&mut env, tier_a);
    mint(&mut env, tier_a);
    mint(&mut env, tier_a);
    mint(&mut env, tier_b);
    mint(&mut env, tier_b);

    assert_eq!(done(StarPassContract::get_tier(&env, tier_a)).minted, 3);
    assert_eq!(done(StarPassContract::get_tier(&env, tier_b)).minted, 2);
    assert_eq!(done(StarPassContract::get_tier(&env, tier_c)).minted, 0);
    assert_eq!(done(StarPassContract::get_creator_pass_count(&env, CREATOR)), 5u64);
}

#[test]
fn test_cannot_deactivate_others_tier() {
    let mut env = setup_env();
    done(StarPassContract::register_creator(&mut env, CREATOR));
    let tier_id = tier(&mut env, "Bronze", 1_000_000, 2_592_000, 0);

    let result = StarPassContract::deactivate_tier(&mut env, IMPOSTOR, tier_id);
    assert!(result.is_err());
}

#[test]
fn test_cannot_update_others_tier_price() {
    let mut env = setup_env();
    done(StarPassContract::register_creator(&mut env, CREATOR));
    let tier_id = tier(&mut env, "Silver", 1_000_000, 2_592_000, 0);

    let result = StarPassContract::update_tier_price(&mut env, IMPOSTOR, tier_id, 2_000_000i128);
    assert!(result.is_err());
}

#[test]
fn test_cannot_withdraw_others_balance() {
    let mut env = Env::new(0, CONTRACT);
    let result = StarPassContract::withdraw(&mut env, CREATOR);
    assert!(result.is_err());
}

#[test]
fn test_upgrade_admin_only() {
    let mut env = setup_env();
    let wasm_hash = Bytes32 { high: 0, low: 0 };
    assert!(StarPassContract::upgrade(&mut env, ADMIN, wasm_hash).is_ok());
    assert!(StarPassContract::upgrade(&mut env, IMPOSTOR, wasm_hash).is_err());
}

#[test]
fn upgrade_and_migration_keep_the_state() {
    let mut env = setup_env();
    done(StarPassContract::register_creator(&mut env, CREATOR));
    let tier_id = tier(&mut env, "Gold", 2_000_000, 2_592_000, 0);
    let pass_id = mint(&mut env, tier_id);

    let check = |env: &Env| {
        assert_eq!(StarPassContract::get_tier_count(env), 1);
        assert_eq!(StarPassContract::get_pass_count(env), 1);
        let profile = done(StarPassContract::get_creator(env, CREATOR));
        assert_eq!(profile.pass_count, 1);
        assert_eq!(profile.total_earned, 1_950_000);
        // Earnings are in escrow until the lock period has passed.
        assert_eq!(StarPassContract::get_creator_balance(env, CREATOR), 0);
        let found = done(StarPassContract::get_tier(env, tier_id));
        assert_eq!(found.minted, 1);
        assert_eq!(found.creator, CREATOR);
        let pass = done(StarPassContract::get_pass(env, pass_id));
        assert_eq!(pass.owner, FAN);
        assert!(pass.active);
        assert_eq!(pass.tier_id, tier_id);
        assert_eq!(StarPassContract::get_fan_passes(env, FAN), vec![pass_id]);
        assert_eq!(StarPassContract::get_creator_tiers(env, CREATOR), vec![tier_id]);
        assert!(StarPassContract::has_valid_pass(env, FAN, tier_id));
    };
    check(&env);
    done(StarPassContract::migrate(&mut env, ADMIN));
    check(&env);

    // Escrow is released after migration as before.
    let now = env.timestamp;
    env.timestamp = now + 3600 + 1;
    let released = done(StarPassContract::process_unlocked_earnings(&mut env, CREATOR));
    assert_eq!(released, 1u32);
    assert_eq!(StarPassContract::get_creator_balance(&env, CREATOR), 1_950_000);

    assert!(StarPassContract::migrate(&mut env, ADMIN).is_err());
}

#[test]
fn test_pass_based_permission() {
    let mut env = setup_env();
    done(StarPassContract::register_creator(&mut env, CREATOR));
    let tier_id =
        permitted_tier(&mut env, "Gold", &["view_content", "join_discord", "download_files"]);

    let carried = symbols(&["view_content", "join_discord"]);
    done(StarPassContract::mint_pass(&mut env, &NoOracle, FAN, tier_id, carried));

    assert!(StarPassContract::has_permission(&env, FAN, tier_id, symbol("view_content")));
    assert!(StarPassContract::has_permission(&env, FAN, tier_id, symbol("join_discord")));
    assert!(!StarPassContract::has_permission(&env, FAN, tier_id, symbol("download_files")));
}

#[test]
fn test_grant_based_permission() {
    let mut env = setup_env();
    done(StarPassContract::register_creator(&mut env, CREATOR));
    let tier_id = permitted_tier(&mut env, "Silver", &["view_content", "join_discord"]);

    let lent = symbols(&["view_content"]);
    done(StarPassContract::grant_permission(&mut env, CREATOR, FAN, tier_id, lent, 3600u64));

    assert!(StarPassContract::has_permission(&env, FAN, tier_id, symbol("view_content")));
    assert!(!StarPassContract::has_permission(&env, FAN, tier_id, symbol("join_discord")));
}

#[test]
fn test_expired_grant_returns_false() {
    let mut env = setup_env();
    done(StarPassContract::register_creator(&mut env, CREATOR));
    let tier_id = permitted_tier(&mut env, "Bronze", &["view_content"]);

    let lent = symbols(&["view_content"]);
    done(StarPassContract::grant_permission(&mut env, CREATOR, FAN, tier_id, lent, 100u64));

    let now = env.timestamp;
    env.timestamp = now + 101;
    assert!(!StarPassContract::has_permission(&env, FAN, tier_id, symbol("view_content")));
}

#[test]
fn test_revoked_grant_returns_false() {
    let mut env = setup_env();
    done(StarPassContract::register_creator(&mut env, CREATOR));
    let tier_id = permitted_tier(&mut env, "Bronze", &["view_content"]);

    let lent = symbols(&["view_content"]);
    done(StarPassContract::grant_permission(&mut env, CREATOR, FAN, tier_id, lent, 3600u64));
    assert!(StarPassContract::has_permission(&env, FAN, tier_id, symbol("view_content")));

    done(StarPassContract::revoke_permission_grant(&mut env, CREATOR, FAN, tier_id));
    assert!(!StarPassContract::has_permission(&env, FAN, tier_id, symbol("view_content")));
}

#[test]
#[should_panic(expected = "Permission not in tier definition")]
fn test_permission_not_in_tier_definition() {
    let mut env = setup_env();
    done(StarPassContract::register_creator(&mut env, CREATOR));
    let tier_id = permitted_tier(&mut env, "Bronze", &["view_content"]);

    let lent = symbols(&["invalid_permission"]);
    done(StarPassContract::grant_permission(&mut env, CREATOR, FAN, tier_id, lent, 3600u64));
}

#[test]
#[should_panic(expected = "Permission not in tier definition")]
fn test_mint_pass_with_invalid_permission() {
    let mut env = setup_env();
    done(StarPassContract::register_creator(&mut env, CREATOR));
    let tier_id = permitted_tier(&mut env, "Bronze", &["view_content"]);

    let carried = symbols(&["invalid_permission"]);
    done(StarPassContract::mint_pass(&mut env, &NoOracle, FAN, tier_id, carried));
}
