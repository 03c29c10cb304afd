use starpass::address::{Address, Bytes32};
use starpass::contract::StarPassContract;
use starpass::env::Env;
use starpass::failure::{Abort, Error, Failure};
use starpass::types::{Creator, PendingEarning, Symbol, Tier, TierPriceMode};

const CONTRACT: Address = Address::Contract(Bytes32 { high: 0, low: 1 });
const ADMIN: Address = Address::Account(Bytes32 { high: 0, low: 2 });
const CREATOR: Address = Address::Account(Bytes32 { high: 0, low: 3 });
const FAN: Address = Address::Account(Bytes32 { high: 0, low: 4 });
const TOKEN: Address = Address::Contract(Bytes32 { high: 0, low: 5 });
const ORACLE: Address = Address::Contract(Bytes32 { high: 0, low: 6 });
const OTHER: Address = Address::Account(Bytes32 { high: 0, low: 7 });

fn ready() -> Env {
    let mut env = Env::new(1_000, CONTRACT);
    StarPassContract::initialize(&mut env, ADMIN, TOKEN, 250, 3_600).unwrap();
    StarPassContract::register_creator(&mut env, CREATOR).unwrap();
    env
}

fn symbols(list: &[&str]) -> Vec<Symbol> {
    list.iter().map(|text| Symbol::new(text.to_string())).collect()
}

fn fixed_tier(env: &mut Env, price: i128, max_supply: u32) -> u32 {
    StarPassContract::create_tier(
        env,
        CREATOR,
        b"Gold".to_vec(),
        price,
        100,
        max_supply,
        symbols(&["read", "write"]),
    )
    .unwrap()
}

fn usd_tier(env: &mut Env, cents: i128) -> u32 {
    StarPassContract::create_tier_usd(env, CREATOR, b"USD".to_vec(), cents, 100, 0, Vec::new())
        .unwrap()
}

fn sell(env: &mut Env, tier_id: u32) -> u64 {
    StarPassContract::mint_pass_quoted(env, FAN, tier_id, symbols(&["read"]), None).unwrap()
}

/// Whether a call was refused for this reason and left no trace.
fn aborted<T>(env: &Env, effects: usize, result: Result<T, Failure>, reason: Abort) -> bool {
    match result {
        Err(Failure::Abort(found)) => found == reason && env.effects.len() == effects,
        _ => false,
    }
}

fn refused<T>(result: Result<T, Failure>, reason: Error) -> bool {
    match result {
        Err(Failure::Error(found)) => found == reason,
        _ => false,
    }
}

#[test]
fn errors_have_their_codes() {
    let all = [
        Error::InvalidLockPeriod,
        Error::EarningNotFound,
        Error::EarningAlreadyReleased,
        Error::ProposalAlreadyExists,
        Error::NoProposalFound,
        Error::UnauthorizedApproval,
        Error::EarningNotMatured,
    ];
    let codes: Vec<u32> = all.iter().map(|error| error.code()).collect();
    assert_eq!(codes, vec![1, 2, 3, 4, 5, 6, 7]);
}

#[test]
fn messages_are_what_callers_know() {
    assert_eq!(Abort::FeeTooHigh.message(), "Fee cannot exceed 10%");
    assert_eq!(Abort::NotInitialized.message(), "Not initialized");
    assert_eq!(Abort::TierSoldOut.message(), "Tier is sold out");
    assert_eq!(
        Abort::TierIsUsdDenominated.message(),
        "Tier is USD-denominated; use update_tier_price_usd"
    );
    assert_eq!(Abort::BelowMinWithdrawal.message(), "Withdrawal amount below minimum threshold");
}

#[test]
fn setting_up_needs_a_fee_of_a_tenth_at_most_and_a_lock_period() {
    let mut env = Env::new(0, CONTRACT);
    let result = StarPassContract::initialize(&mut env, ADMIN, TOKEN, 1_001, 3_600);
    assert!(aborted(&env, 0, result, Abort::FeeTooHigh));
    let result = StarPassContract::initialize(&mut env, ADMIN, TOKEN, 1_001, 0);
    assert!(aborted(&env, 0, result, Abort::FeeTooHigh));
    let result = StarPassContract::initialize(&mut env, ADMIN, TOKEN, 1_000, 0);
    assert!(refused(result, Error::InvalidLockPeriod));
    assert!(env.storage.writes().is_empty());
    assert!(StarPassContract::initialize(&mut env, ADMIN, TOKEN, 1_000, 1).is_ok());
}

#[test]
fn the_admins_calls_need_a_contract_that_is_set_up() {
    let mut env = Env::new(0, CONTRACT);
    let result = StarPassContract::set_fee(&mut env, 10);
    assert!(aborted(&env, 0, result, Abort::NotInitialized));
    let result = StarPassContract::update_lock_period(&mut env, ADMIN, 10);
    assert!(aborted(&env, 0, result, Abort::NotInitialized));
    let result = StarPassContract::set_oracle(&mut env, ADMIN, ORACLE);
    assert!(aborted(&env, 0, result, Abort::NotInitialized));
    let result = StarPassContract::withdraw_fees(&mut env, OTHER, 10);
    assert!(aborted(&env, 0, result, Abort::NotInitialized));
    let result = StarPassContract::update_min_withdrawal(&mut env, ADMIN, 10);
    assert!(aborted(&env, 0, result, Abort::AdminNotSet));
    let result = StarPassContract::upgrade(&mut env, ADMIN, Bytes32 { high: 1, low: 2 });
    assert!(aborted(&env, 0, result, Abort::NotInitialized));
    let result = StarPassContract::migrate(&mut env, ADMIN);
    assert!(aborted(&env, 0, result, Abort::NotInitialized));
    let result = StarPassContract::propose_early_release(&mut env, ADMIN, CREATOR, 0);
    assert!(aborted(&env, 0, result, Abort::NotInitialized));
}

#[test]
fn the_admins_calls_are_for_the_admin() {
    let mut env = ready();
    let n = env.effects.len();
    let result = StarPassContract::update_lock_period(&mut env, OTHER, 10);
    assert!(aborted(&env, n, result, Abort::NotAuthorized));
    let result = StarPassContract::set_oracle(&mut env, OTHER, ORACLE);
    assert!(aborted(&env, n, result, Abort::NotAuthorized));
    let result = StarPassContract::update_min_withdrawal(&mut env, OTHER, 10);
    assert!(aborted(&env, n, result, Abort::Unauthorized));
    let result = StarPassContract::upgrade(&mut env, OTHER, Bytes32 { high: 1, low: 2 });
    assert!(aborted(&env, n, result, Abort::NotAuthorized));
    let result = StarPassContract::migrate(&mut env, OTHER);
    assert!(aborted(&env, n, result, Abort::NotAuthorized));
    let result = StarPassContract::propose_early_release(&mut env, OTHER, CREATOR, 0);
    assert!(aborted(&env, n, result, Abort::NotAuthorized));
}

#[test]
fn the_admins_arguments_are_checked() {
    let mut env = ready();
    let n = env.effects.len();
    let result = StarPassContract::set_fee(&mut env, 1_001);
    assert!(aborted(&env, n, result, Abort::FeeTooHigh));
    assert!(refused(
        StarPassContract::update_lock_period(&mut env, ADMIN, 0),
        Error::InvalidLockPeriod
    ));
    let result = StarPassContract::withdraw_fees(&mut env, OTHER, 0);
    assert!(aborted(&env, n, result, Abort::AmountNotPositive));
    let result = StarPassContract::withdraw_fees(&mut env, OTHER, -5);
    assert!(aborted(&env, n, result, Abort::AmountNotPositive));
    let result = StarPassContract::update_min_withdrawal(&mut env, ADMIN, -1);
    assert!(aborted(&env, n, result, Abort::NegativeMinWithdrawal));
    assert!(StarPassContract::update_min_withdrawal(&mut env, ADMIN, 0).is_ok());
}

#[test]
fn fees_are_not_paid_without_a_token() {
    let mut env = Env::new(0, CONTRACT);
    env.storage.set_admin(ADMIN);
    let result = StarPassContract::withdraw_fees(&mut env, OTHER, 10);
    assert!(aborted(&env, 0, result, Abort::TokenNotSet));
}

#[test]
fn tiers_need_a_creator_a_price_a_duration_and_a_name() {
    let mut env = ready();
    let n = env.effects.len();
    let name = || b"Gold".to_vec();
    let result = StarPassContract::create_tier(&mut env, CREATOR, name(), 0, 1, 0, Vec::new());
    assert!(aborted(&env, n, result, Abort::PriceNotPositive));
    let result = StarPassContract::create_tier_usd(&mut env, CREATOR, name(), -1, 1, 0, Vec::new());
    assert!(aborted(&env, n, result, Abort::PriceNotPositive));
    let result = StarPassContract::create_tier(&mut env, OTHER, name(), 1, 1, 0, Vec::new());
    assert!(aborted(&env, n, result, Abort::CreatorNotRegistered));
    let result = StarPassContract::create_tier(&mut env, CREATOR, name(), 1, 0, 0, Vec::new());
    assert!(aborted(&env, n, result, Abort::DurationZero));
    let result = StarPassContract::create_tier(&mut env, CREATOR, Vec::new(), 1, 1, 0, Vec::new());
    assert!(aborted(&env, n, result, Abort::NameEmpty));
    env.storage.set_tier_count(u32::MAX);
    let result = StarPassContract::create_tier(&mut env, CREATOR, name(), 1, 1, 0, Vec::new());
    assert!(aborted(&env, n, result, Abort::ArithmeticOverflow));
}

#[test]
fn tiers_are_changed_by_their_creators_while_active() {
    let mut env = ready();
    let fixed = fixed_tier(&mut env, 1_000, 0);
    let usd = usd_tier(&mut env, 500);
    let n = env.effects.len();

    let result = StarPassContract::deactivate_tier(&mut env, CREATOR, 77);
    assert!(aborted(&env, n, result, Abort::TierNotFound));
    let result = StarPassContract::deactivate_tier(&mut env, OTHER, fixed);
    assert!(aborted(&env, n, result, Abort::NotTierCreator));

    let result = StarPassContract::update_tier_price(&mut env, CREATOR, fixed, 0);
    assert!(aborted(&env, n, result, Abort::PriceNotPositive));
    let result = StarPassContract::update_tier_price(&mut env, CREATOR, 77, 5);
    assert!(aborted(&env, n, result, Abort::TierNotFound));
    let result = StarPassContract::update_tier_price(&mut env, OTHER, fixed, 5);
    assert!(aborted(&env, n, result, Abort::NotTierCreator));
    let result = StarPassContract::update_tier_price(&mut env, CREATOR, usd, 5);
    assert!(aborted(&env, n, result, Abort::TierIsUsdDenominated));

    let result = StarPassContract::update_tier_price_usd(&mut env, CREATOR, usd, -5);
    assert!(aborted(&env, n, result, Abort::PriceNotPositive));
    let result = StarPassContract::update_tier_price_usd(&mut env, CREATOR, 77, 5);
    assert!(aborted(&env, n, result, Abort::TierNotFound));
    let result = StarPassContract::update_tier_price_usd(&mut env, OTHER, usd, 5);
    assert!(aborted(&env, n, result, Abort::NotTierCreator));
    let result = StarPassContract::update_tier_price_usd(&mut env, CREATOR, fixed, 5);
    assert!(aborted(&env, n, result, Abort::TierIsFixedPrice));

    assert!(StarPassContract::deactivate_tier(&mut env, CREATOR, fixed).is_ok());
    let n = env.effects.len();
    let result = StarPassContract::deactivate_tier(&mut env, CREATOR, fixed);
    assert!(aborted(&env, n, result, Abort::TierAlreadyInactive));
    let result = StarPassContract::update_tier_price(&mut env, CREATOR, fixed, 5);
    assert!(aborted(&env, n, result, Abort::TierNotActive));
}

#[test]
fn sales_are_refused() {
    let mut env = ready();
    let tier_id = fixed_tier(&mut env, 1_000, 1);
    let n = env.effects.len();
    let none = Vec::new;

    let result = StarPassContract::mint_pass_quoted(&mut env, FAN, 77, none(), None);
    assert!(aborted(&env, n, result, Abort::TierNotFound));
    let result =
        StarPassContract::mint_pass_quoted(&mut env, FAN, tier_id, symbols(&["fly"]), None);
    assert!(aborted(&env, n, result, Abort::PermissionNotInTier));
    env.timestamp = u64::MAX;
    let result = StarPassContract::mint_pass_quoted(&mut env, FAN, tier_id, none(), None);
    assert!(aborted(&env, n, result, Abort::ArithmeticOverflow));
    env.timestamp = 1_000;

    sell(&mut env, tier_id);
    let n = env.effects.len();
    let result = StarPassContract::mint_pass_quoted(&mut env, FAN, tier_id, none(), None);
    assert!(aborted(&env, n, result, Abort::TierSoldOut));

    assert!(StarPassContract::deactivate_tier(&mut env, CREATOR, tier_id).is_ok());
    let n = env.effects.len();
    let result = StarPassContract::mint_pass_quoted(&mut env, FAN, tier_id, none(), None);
    assert!(aborted(&env, n, result, Abort::TierNotActive));
}

#[test]
fn sales_need_a_token_and_a_creator_on_record() {
    let mut env = Env::new(1_000, CONTRACT);
    let tier = Tier {
        tier_id: 1,
        creator: CREATOR,
        name: b"Gold".to_vec(),
        price: TierPriceMode::Fixed(1_000),
        duration: 100,
        max_supply: 0,
        minted: 0,
        active: true,
        permissions: Vec::new(),
    };
    env.storage.set_tier(1, tier);
    let result = StarPassContract::mint_pass_quoted(&mut env, FAN, 1, Vec::new(), None);
    assert!(aborted(&env, 0, result, Abort::TokenNotSet));
    env.storage.set_token(TOKEN);
    let result = StarPassContract::mint_pass_quoted(&mut env, FAN, 1, Vec::new(), None);
    assert!(aborted(&env, 0, result, Abort::CreatorNotFound));

    let profile =
        Creator { address: CREATOR, registered_at: 0, total_earned: i128::MAX, pass_count: 0 };
    env.storage.set_creator(CREATOR, profile);
    let result = StarPassContract::mint_pass_quoted(&mut env, FAN, 1, Vec::new(), None);
    assert!(aborted(&env, 0, result, Abort::ArithmeticOverflow));
}

#[test]
fn usd_sales_need_a_fresh_and_positive_quote() {
    let mut env = ready();
    let tier_id = usd_tier(&mut env, 1_000);
    let n = env.effects.len();
    let none = Vec::new;

    let quote = Some((10, 1_000));
    let result = StarPassContract::mint_pass_quoted(&mut env, FAN, tier_id, none(), quote);
    assert!(aborted(&env, n, result, Abort::OracleUnavailable));

    assert!(StarPassContract::set_oracle(&mut env, ADMIN, ORACLE).is_ok());
    let n = env.effects.len();
    let result = StarPassContract::mint_pass_quoted(&mut env, FAN, tier_id, none(), None);
    assert!(aborted(&env, n, result, Abort::OracleUnavailable));
    let result = StarPassContract::mint_pass_quoted(&mut env, FAN, tier_id, none(), Some((0, 1_000)));
    assert!(aborted(&env, n, result, Abort::OracleUnavailable));
    let result = StarPassContract::mint_pass_quoted(&mut env, FAN, tier_id, none(), Some((-3, 1_000)));
    assert!(aborted(&env, n, result, Abort::OracleUnavailable));
    let result = StarPassContract::mint_pass_quoted(&mut env, FAN, tier_id, none(), Some((10, 699)));
    assert!(aborted(&env, n, result, Abort::OracleUnavailable));

    let huge = usd_tier(&mut env, i128::MAX / 1_000);
    let n = env.effects.len();
    let result = StarPassContract::mint_pass_quoted(&mut env, FAN, huge, none(), Some((10, 1_000)));
    assert!(aborted(&env, n, result, Abort::TokenAmountOverflow));

    // Three hundred seconds old is fresh enough, and so is a quote from the future.
    let fresh = Some((10, 700));
    assert!(StarPassContract::mint_pass_quoted(&mut env, FAN, tier_id, none(), fresh).is_ok());
    let ahead = Some((10, 2_000));
    assert!(StarPassContract::mint_pass_quoted(&mut env, FAN, tier_id, none(), ahead).is_ok());
}

#[test]
fn renewals_are_refused() {
    let mut env = ready();
    let tier_id = fixed_tier(&mut env, 1_000, 0);
    let pass_id = sell(&mut env, tier_id);
    let n = env.effects.len();

    let result = StarPassContract::renew_pass_quoted(&mut env, FAN, 77, None);
    assert!(aborted(&env, n, result, Abort::PassNotFound));
    let result = StarPassContract::renew_pass_quoted(&mut env, OTHER, pass_id, None);
    assert!(aborted(&env, n, result, Abort::NotPassOwner));

    let mut pass = env.storage.pass(pass_id).unwrap();
    pass.expires_at = u64::MAX;
    env.storage.set_pass(pass_id, pass);
    let result = StarPassContract::renew_pass_quoted(&mut env, FAN, pass_id, None);
    assert!(aborted(&env, n, result, Abort::ArithmeticOverflow));

    let mut pass = env.storage.pass(pass_id).unwrap();
    pass.tier_id = 77;
    env.storage.set_pass(pass_id, pass);
    let result = StarPassContract::renew_pass_quoted(&mut env, FAN, pass_id, None);
    assert!(aborted(&env, n, result, Abort::TierNotFound));

    let mut pass = env.storage.pass(pass_id).unwrap();
    pass.active = false;
    env.storage.set_pass(pass_id, pass);
    let result = StarPassContract::renew_pass_quoted(&mut env, FAN, pass_id, None);
    assert!(aborted(&env, n, result, Abort::PassNotActive));
}

#[test]
fn pausing_and_resuming_are_refused() {
    let mut env = ready();
    let tier_id = fixed_tier(&mut env, 1_000, 0);
    let pass_id = sell(&mut env, tier_id);
    let n = env.effects.len();

    let result = StarPassContract::pause_pass(&mut env, FAN, 77);
    assert!(aborted(&env, n, result, Abort::PassNotFound));
    let result = StarPassContract::pause_pass(&mut env, OTHER, pass_id);
    assert!(aborted(&env, n, result, Abort::NotPassOwner));
    env.timestamp = 1_100;
    let result = StarPassContract::pause_pass(&mut env, FAN, pass_id);
    assert!(aborted(&env, n, result, Abort::PassExpired));
    env.timestamp = 1_099;

    let result = StarPassContract::resume_pass(&mut env, FAN, 77);
    assert!(aborted(&env, n, result, Abort::PassNotFound));
    let result = StarPassContract::resume_pass(&mut env, OTHER, pass_id);
    assert!(aborted(&env, n, result, Abort::NotPassOwner));
    let result = StarPassContract::resume_pass(&mut env, FAN, pass_id);
    assert!(aborted(&env, n, result, Abort::PassNotPaused));

    assert!(StarPassContract::pause_pass(&mut env, FAN, pass_id).is_ok());
    let n = env.effects.len();
    let result = StarPassContract::pause_pass(&mut env, FAN, pass_id);
    assert!(aborted(&env, n, result, Abort::PassAlreadyPaused));
    env.timestamp = 1_098;
    let result = StarPassContract::resume_pass(&mut env, FAN, pass_id);
    assert!(aborted(&env, n, result, Abort::ArithmeticOverflow));

    let mut pass = env.storage.pass(pass_id).unwrap();
    pass.active = false;
    env.storage.set_pass(pass_id, pass);
    let result = StarPassContract::resume_pass(&mut env, FAN, pass_id);
    assert!(aborted(&env, n, result, Abort::PassNotActive));
    let result = StarPassContract::pause_pass(&mut env, FAN, pass_id);
    assert!(aborted(&env, n, result, Abort::PassNotActive));
}

#[test]
fn withdrawals_are_refused() {
    let mut env = ready();
    let n = env.effects.len();
    let result = StarPassContract::withdraw(&mut env, CREATOR);
    assert!(aborted(&env, n, result, Abort::NoBalance));

    env.storage.set_creator_balance(CREATOR, 99);
    env.storage.set_min_withdrawal(100);
    let result = StarPassContract::withdraw(&mut env, CREATOR);
    assert!(aborted(&env, n, result, Abort::BelowMinWithdrawal));
    env.storage.set_creator_balance(CREATOR, 100);
    assert!(StarPassContract::withdraw(&mut env, CREATOR).is_ok());
}

#[test]
fn without_a_threshold_on_record_small_balances_stay() {
    let mut env = Env::new(0, CONTRACT);
    assert_eq!(StarPassContract::get_min_withdrawal(&env), 1_000_000);
    env.storage.set_creator_balance(CREATOR, 999_999);
    let result = StarPassContract::withdraw(&mut env, CREATOR);
    assert!(aborted(&env, 0, result, Abort::BelowMinWithdrawal));
    env.storage.set_creator_balance(CREATOR, 1_000_000);
    let result = StarPassContract::withdraw(&mut env, CREATOR);
    assert!(aborted(&env, 0, result, Abort::TokenNotSet));
}

#[test]
fn early_releases_are_refused() {
    let mut env = ready();
    let tier_id = fixed_tier(&mut env, 1_000, 0);
    sell(&mut env, tier_id);

    let result = StarPassContract::propose_early_release(&mut env, ADMIN, CREATOR, 1);
    assert!(refused(result, Error::EarningNotFound));
    let result = StarPassContract::approve_early_release(&mut env, CREATOR, 0);
    assert!(refused(result, Error::NoProposalFound));

    assert!(StarPassContract::propose_early_release(&mut env, ADMIN, CREATOR, 0).is_ok());
    let result = StarPassContract::propose_early_release(&mut env, ADMIN, CREATOR, 0);
    assert!(refused(result, Error::ProposalAlreadyExists));
    let result = StarPassContract::approve_early_release(&mut env, OTHER, 0);
    assert!(refused(result, Error::UnauthorizedApproval));

    // Matured and released in the meantime.
    env.timestamp = 1_000 + 3_600 + 1;
    assert_eq!(StarPassContract::process_unlocked_earnings(&mut env, CREATOR), Ok(1));
    let result = StarPassContract::approve_early_release(&mut env, CREATOR, 0);
    assert!(refused(result, Error::EarningAlreadyReleased));
    let result = StarPassContract::propose_early_release(&mut env, ADMIN, CREATOR, 0);
    assert!(refused(result, Error::EarningAlreadyReleased));
}

fn earning(earning_id: u64, amount: i128) -> PendingEarning {
    PendingEarning {
        creator: CREATOR,
        amount,
        token: TOKEN,
        unlocks_at: 10,
        released: false,
        earning_id,
    }
}

#[test]
fn balances_do_not_overflow() {
    let mut env = ready();
    env.storage.set_earning(CREATOR, 0, earning(0, 5));
    env.storage.set_earning(CREATOR, 1, earning(1, i128::MAX));
    env.storage.set_earning_count(CREATOR, 2);
    let n = env.effects.len();
    let result = StarPassContract::process_unlocked_earnings(&mut env, CREATOR);
    assert!(aborted(&env, n, result, Abort::ArithmeticOverflow));
    assert_eq!(StarPassContract::get_creator_balance(&env, CREATOR), 0);
    assert!(!StarPassContract::get_pending_earnings(&env, CREATOR)[0].released);

    env.storage.set_creator_balance(CREATOR, 1);
    assert!(StarPassContract::propose_early_release(&mut env, ADMIN, CREATOR, 1).is_ok());
    let n = env.effects.len();
    let result = StarPassContract::approve_early_release(&mut env, CREATOR, 1);
    assert!(aborted(&env, n, result, Abort::ArithmeticOverflow));
}

#[test]
fn a_proposal_without_an_earning_is_not_approved() {
    let mut env = ready();
    env.storage.set_earning(CREATOR, 0, earning(0, 5));
    assert!(StarPassContract::propose_early_release(&mut env, ADMIN, CREATOR, 0).is_ok());
    let proposal = env.storage.proposal(0).unwrap();
    env.storage.set_proposal(3, proposal);
    let result = StarPassContract::approve_early_release(&mut env, CREATOR, 3);
    assert!(refused(result, Error::EarningNotFound));
}

#[test]
fn loans_are_refused() {
    let mut env = ready();
    let tier_id = fixed_tier(&mut env, 1_000, 0);
    let n = env.effects.len();
    let read = || symbols(&["read"]);

    let result = StarPassContract::grant_permission(&mut env, CREATOR, FAN, 77, read(), 10);
    assert!(aborted(&env, n, result, Abort::TierNotFound));
    let result = StarPassContract::grant_permission(&mut env, OTHER, FAN, tier_id, read(), 10);
    assert!(aborted(&env, n, result, Abort::NotTierCreator));
    let mixed = symbols(&["read", "fly"]);
    let result = StarPassContract::grant_permission(&mut env, CREATOR, FAN, tier_id, mixed, 10);
    assert!(aborted(&env, n, result, Abort::PermissionNotInTier));

    let result = StarPassContract::revoke_permission_grant(&mut env, CREATOR, FAN, 77);
    assert!(aborted(&env, n, result, Abort::TierNotFound));
    let result = StarPassContract::revoke_permission_grant(&mut env, OTHER, FAN, tier_id);
    assert!(aborted(&env, n, result, Abort::NotTierCreator));
    let result = StarPassContract::revoke_permission_grant(&mut env, CREATOR, FAN, tier_id);
    assert!(aborted(&env, n, result, Abort::GrantNotFound));
}

#[test]
fn queries_of_what_is_not_there() {
    let env = ready();
    assert_eq!(StarPassContract::get_pass(&env, 1), Err(Failure::Abort(Abort::PassNotFound)));
    assert_eq!(StarPassContract::get_tier(&env, 1), Err(Failure::Abort(Abort::TierNotFound)));
    assert_eq!(
        StarPassContract::get_creator(&env, OTHER),
        Err(Failure::Abort(Abort::CreatorNotFound))
    );
    assert_eq!(StarPassContract::get_creator_balance(&env, OTHER), 0);
    assert_eq!(StarPassContract::get_oracle(&env), None);
    assert!(StarPassContract::get_fan_passes(&env, FAN).is_empty());
    assert!(StarPassContract::get_fan_pass_details(&env, FAN).is_empty());
    assert!(StarPassContract::get_fan_active_passes(&env, FAN).is_empty());
    assert!(StarPassContract::get_creator_tiers(&env, OTHER).is_empty());
    assert!(StarPassContract::get_pending_earnings(&env, CREATOR).is_empty());
    assert_eq!(StarPassContract::get_creator_pass_count(&env, OTHER), Ok(0));
    let mut env = env;
    assert_eq!(StarPassContract::process_unlocked_earnings(&mut env, OTHER), Ok(0));
}

#[test]
fn pages_do_not_reach_beyond_the_numbers_there_are() {
    let mut env = ready();
    fixed_tier(&mut env, 1_000, 0);
    // An offset beyond the end of the list gives an empty page.
    let page = StarPassContract::get_creator_tiers_page(&env, CREATOR, u32::MAX, 20);
    assert_eq!(page, Ok(Vec::new()));
    assert_eq!(
        StarPassContract::get_creator_tiers_page(&env, CREATOR, u32::MAX, 21),
        Err(Failure::Abort(Abort::LimitTooLarge))
    );
    assert_eq!(StarPassContract::get_creator_tiers_page(&env, CREATOR, 0, 0), Ok(Vec::new()));
    assert_eq!(StarPassContract::get_creator_tiers_page(&env, CREATOR, 0, 20), Ok(vec![1]));
}

#[test]
fn creators_register_once() {
    let mut env = ready();
    let n = env.effects.len();
    let result = StarPassContract::register_creator(&mut env, CREATOR);
    assert!(aborted(&env, n, result, Abort::CreatorAlreadyRegistered));
}

#[test]
fn storage_is_migrated_once() {
    let mut env = ready();
    assert!(StarPassContract::migrate(&mut env, ADMIN).is_ok());
    assert_eq!(env.storage.contract_version(), Some(2));
    let n = env.effects.len();
    let result = StarPassContract::migrate(&mut env, ADMIN);
    assert!(aborted(&env, n, result, Abort::AlreadyMigrated));
}
