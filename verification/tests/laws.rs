use std::cell::Cell;

use starpass::address::{Address, Bytes32};
use starpass::contract::StarPassContract;
use starpass::effect::{Effect, Event};
use starpass::env::Env;
use starpass::failure::{Abort, Failure};
use starpass::pricing::{split_price, OracleInterface, Quote};
use starpass::types::{DataKey, Symbol, TierPriceMode};

const CONTRACT: Address = Address::Contract(Bytes32 { high: 0, low: 1 });
const ADMIN: Address = Address::Account(Bytes32 { high: 0, low: 2 });
const CREATOR: Address = Address::Account(Bytes32 { high: 0, low: 3 });
const FAN: Address = Address::Account(Bytes32 { high: 0, low: 4 });
const TOKEN: Address = Address::Contract(Bytes32 { high: 0, low: 5 });
const ORACLE: Address = Address::Contract(Bytes32 { high: 0, low: 6 });
const OTHER: Address = Address::Account(Bytes32 { high: 0, low: 7 });

fn ready() -> Env {
    let mut env = Env::new(1_000, CONTRACT);
    StarPassContract::initialize(&mut env, ADMIN, TOKEN, 250, 3_600).unwrap();
    StarPassContract::register_creator(&mut env, CREATOR).unwrap();
    env
}

fn symbols(list: &[&str]) -> Vec<Symbol> {
    list.iter().map(|text| Symbol::new(text.to_string())).collect()
}

fn fixed_tier(env: &mut Env, price: i128, max_supply: u32) -> u32 {
    StarPassContract::create_tier(
        env,
        CREATOR,
        b"Gold".to_vec(),
        price,
        100,
        max_supply,
        symbols(&["read", "write"]),
    )
    .unwrap()
}

fn usd_tier(env: &mut Env, cents: i128) -> u32 {
    StarPassContract::create_tier_usd(env, CREATOR, b"USD".to_vec(), cents, 100, 0, Vec::new())
        .unwrap()
}

fn sell(env: &mut Env, tier_id: u32) -> u64 {
    StarPassContract::mint_pass_quoted(env, FAN, tier_id, symbols(&["read"]), None).unwrap()
}

/// An oracle that notes what it is asked.
struct NotingOracle {
    quote: Quote,
    asked: Cell<Option<(Address, Address)>>,
}

impl NotingOracle {
    fn new(quote: Quote) -> NotingOracle {
        NotingOracle { quote, asked: Cell::new(None) }
    }
}

impl OracleInterface for NotingOracle {
    fn get_price(&self, oracle: Address, token: Address) -> Quote {
        self.asked.set(Some((oracle, token)));
        self.quote
    }
}

/// What a creator is owed: the balance and what is in escrow.
fn owed(env: &Env, creator: Address) -> i128 {
    let held: i128 = StarPassContract::get_pending_earnings(env, creator)
        .iter()
        .filter(|earning| !earning.released)
        .map(|earning| earning.amount)
        .sum();
    StarPassContract::get_creator_balance(env, creator) + held
}

fn paid_out(env: &Env, creator: Address) -> i128 {
    StarPassContract::get_creator(env, creator).unwrap().total_earned - owed(env, creator)
}

/// What the contract has taken in less what it has paid out.
fn holdings(env: &Env) -> i128 {
    env.effects
        .iter()
        .map(|effect| match effect {
            Effect::Transfer { to, amount, .. } if *to == CONTRACT => *amount,
            Effect::Transfer { from, amount, .. } if *from == CONTRACT => -*amount,
            _ => 0,
        })
        .sum()
}

#[test]
fn a_sale_does_all_that_it_promises() {
    let mut env = ready();
    let tier_id = fixed_tier(&mut env, 1_000_001, 0);
    let effects = env.effects.len();
    let writes = env.storage.writes().len();
    let pass_id = sell(&mut env, tier_id);

    // 250 basis points of 1_000_001 are 25_000, rounded down.
    let earned = 975_001;
    assert_eq!(
        env.effects[effects..].to_vec(),
        vec![
            Effect::RequireAuth(FAN),
            Effect::Transfer { token: TOKEN, from: FAN, to: CONTRACT, amount: 1_000_001 },
            Effect::Publish(Event::EarningPending {
                creator: CREATOR,
                earning_id: 0,
                amount: earned,
                unlocks_at: 4_600,
            }),
            Effect::Publish(Event::PassMinted { pass_id, tier_id, fan: FAN, expires_at: 1_100 }),
        ]
    );
    assert_eq!(
        env.storage.writes()[writes..].to_vec(),
        vec![
            DataKey::PendingEarningCount(CREATOR),
            DataKey::PendingEarning(CREATOR, 0),
            DataKey::Creator(CREATOR),
            DataKey::Pass(pass_id),
            DataKey::PassCount,
            DataKey::Tier(tier_id),
            DataKey::FanPasses(FAN),
        ]
    );
    assert_eq!(StarPassContract::get_creator_balance(&env, CREATOR), 0);
    assert_eq!(owed(&env, CREATOR), earned);
    assert_eq!(paid_out(&env, CREATOR), 0);
    let pass = StarPassContract::get_pass(&env, pass_id).unwrap();
    assert_eq!(pass.purchased_at, 1_000);
    assert_eq!(pass.expires_at, 1_100);
    assert_eq!(pass.creator, CREATOR);
    assert_eq!(pass.token, TOKEN);
    assert_eq!(pass.pass_permissions.len(), 1);
    assert_eq!(pass.pass_permissions[0].as_str(), "read");
}

#[test]
fn payments_split_exactly() {
    assert_eq!(split_price(1_000_000, 250), Ok((25_000, 975_000)));
    assert_eq!(split_price(100_000_000, 250), Ok((2_500_000, 97_500_000)));
    assert_eq!(split_price(39, 250), Ok((0, 39)));
    assert_eq!(split_price(10_000, 1_000), Ok((1_000, 9_000)));
    assert_eq!(split_price(-39, 1_000), Ok((-3, -36)));
    assert_eq!(split_price(0, 250), Ok((0, 0)));
    assert_eq!(split_price(i128::MAX, 0), Ok((0, i128::MAX)));
    assert_eq!(split_price(i128::MAX, 2), Err(Failure::Abort(Abort::ArithmeticOverflow)));
}

#[test]
fn the_oracle_is_asked_about_the_token() {
    let mut env = ready();
    StarPassContract::set_oracle(&mut env, ADMIN, ORACLE).unwrap();
    let tier_id = usd_tier(&mut env, 999);
    let oracle = NotingOracle::new((7, 1_000));
    StarPassContract::mint_pass(&mut env, &oracle, FAN, tier_id, Vec::new()).unwrap();
    assert_eq!(oracle.asked.get(), Some((ORACLE, TOKEN)));
    // 999 * 10_000_000 / 7, rounded down.
    assert!(env.effects.contains(&Effect::Transfer {
        token: TOKEN,
        from: FAN,
        to: CONTRACT,
        amount: 1_427_142_857,
    }));

    let again = NotingOracle::new((8, 1_000));
    StarPassContract::renew_pass(&mut env, &again, FAN, 1).unwrap();
    assert_eq!(again.asked.get(), Some((ORACLE, TOKEN)));
    assert!(env.effects.contains(&Effect::Transfer {
        token: TOKEN,
        from: FAN,
        to: CONTRACT,
        amount: 1_248_750_000,
    }));
}

#[test]
fn the_oracle_is_not_asked_in_vain() {
    let mut env = ready();
    StarPassContract::set_oracle(&mut env, ADMIN, ORACLE).unwrap();
    let fixed = fixed_tier(&mut env, 500, 0);
    let oracle = NotingOracle::new((7, 1_000));
    StarPassContract::mint_pass(&mut env, &oracle, FAN, fixed, Vec::new()).unwrap();
    assert_eq!(oracle.asked.get(), None);
    assert!(StarPassContract::mint_pass(&mut env, &oracle, FAN, 77, Vec::new()).is_err());
    assert!(StarPassContract::renew_pass(&mut env, &oracle, OTHER, 1).is_err());
    assert_eq!(oracle.asked.get(), None);
}

#[test]
fn earnings_are_locked_then_released_once() {
    let mut env = ready();
    let tier_id = fixed_tier(&mut env, 1_000, 0);
    sell(&mut env, tier_id);
    env.timestamp = 2_000;
    sell(&mut env, tier_id);

    // At the very second of the unlocking nothing is due.
    env.timestamp = 4_600;
    assert_eq!(StarPassContract::process_unlocked_earnings(&mut env, CREATOR), Ok(0));
    env.timestamp = 4_601;
    let writes = env.storage.writes().len();
    assert_eq!(StarPassContract::process_unlocked_earnings(&mut env, CREATOR), Ok(1));
    assert_eq!(
        env.storage.writes()[writes..].to_vec(),
        vec![DataKey::PendingEarning(CREATOR, 0), DataKey::CreatorBalance(CREATOR)]
    );
    assert_eq!(
        env.effects[env.effects.len() - 1],
        Effect::Publish(Event::EarningReleased {
            creator: CREATOR,
            earning_id: 0,
            amount: 975,
            timestamp: 4_601,
        })
    );
    assert_eq!(StarPassContract::get_creator_balance(&env, CREATOR), 975);
    assert_eq!(owed(&env, CREATOR), 1_950);

    let effects = env.effects.len();
    assert_eq!(StarPassContract::process_unlocked_earnings(&mut env, CREATOR), Ok(0));
    assert_eq!(env.effects.len(), effects);

    env.timestamp = 10_000;
    assert_eq!(StarPassContract::process_unlocked_earnings(&mut env, CREATOR), Ok(1));
    assert_eq!(StarPassContract::get_creator_balance(&env, CREATOR), 1_950);
    let earnings = StarPassContract::get_pending_earnings(&env, CREATOR);
    assert_eq!(earnings.len(), 2);
    assert!(earnings.iter().all(|earning| earning.released));
    assert_eq!(earnings[1].earning_id, 1);
    assert_eq!(earnings[1].unlocks_at, 5_600);
}

#[test]
fn a_new_lock_period_is_for_later_earnings() {
    let mut env = ready();
    let tier_id = fixed_tier(&mut env, 1_000, 0);
    sell(&mut env, tier_id);
    StarPassContract::update_lock_period(&mut env, ADMIN, 10).unwrap();
    assert_eq!(
        env.effects[env.effects.len() - 1],
        Effect::Publish(Event::LockPeriodUpdated {
            old_period_seconds: 3_600,
            new_period_seconds: 10,
        })
    );
    sell(&mut env, tier_id);
    let earnings = StarPassContract::get_pending_earnings(&env, CREATOR);
    assert_eq!(earnings[0].unlocks_at, 4_600);
    assert_eq!(earnings[1].unlocks_at, 1_010);
}

#[test]
fn an_unlocking_beyond_all_times_is_never_due() {
    let mut env = ready();
    StarPassContract::update_lock_period(&mut env, ADMIN, u64::MAX).unwrap();
    let tier_id = fixed_tier(&mut env, 1_000, 0);
    sell(&mut env, tier_id);
    assert_eq!(StarPassContract::get_pending_earnings(&env, CREATOR)[0].unlocks_at, u64::MAX);
    env.timestamp = u64::MAX;
    assert_eq!(StarPassContract::process_unlocked_earnings(&mut env, CREATOR), Ok(0));
}

#[test]
fn early_release_takes_both_parties() {
    let mut env = ready();
    let tier_id = fixed_tier(&mut env, 1_000, 0);
    sell(&mut env, tier_id);
    sell(&mut env, tier_id);

    StarPassContract::propose_early_release(&mut env, ADMIN, CREATOR, 1).unwrap();
    assert_eq!(
        env.effects[env.effects.len() - 2..].to_vec(),
        vec![
            Effect::RequireAuth(ADMIN),
            Effect::Publish(Event::EarlyReleaseProposed {
                admin: ADMIN,
                creator: CREATOR,
                earning_id: 1,
                timestamp: 1_000,
            }),
        ]
    );
    assert_eq!(env.storage.proposal(1).unwrap().proposed_at, 1_000);
    env.timestamp = 1_200;
    StarPassContract::approve_early_release(&mut env, CREATOR, 1).unwrap();
    assert_eq!(
        env.effects[env.effects.len() - 2..].to_vec(),
        vec![
            Effect::RequireAuth(CREATOR),
            Effect::Publish(Event::EarlyReleaseExecuted {
                admin: ADMIN,
                creator: CREATOR,
                earning_id: 1,
                amount: 975,
                timestamp: 1_200,
            }),
        ]
    );
    assert_eq!(StarPassContract::get_creator_balance(&env, CREATOR), 975);
    assert_eq!(owed(&env, CREATOR), 1_950);
    assert!(env.storage.proposal(1).is_none());
    assert!(StarPassContract::approve_early_release(&mut env, CREATOR, 1).is_err());

    // What was released early is not released again in time.
    env.timestamp = 9_000;
    assert_eq!(StarPassContract::process_unlocked_earnings(&mut env, CREATOR), Ok(1));
    assert_eq!(StarPassContract::get_creator_balance(&env, CREATOR), 1_950);
}

#[test]
fn withdrawals_pay_the_whole_balance() {
    let mut env = ready();
    let tier_id = fixed_tier(&mut env, 1_000, 0);
    sell(&mut env, tier_id);
    env.timestamp = 9_000;
    StarPassContract::process_unlocked_earnings(&mut env, CREATOR).unwrap();
    sell(&mut env, tier_id);

    let effects = env.effects.len();
    StarPassContract::withdraw(&mut env, CREATOR).unwrap();
    assert_eq!(
        env.effects[effects..].to_vec(),
        vec![
            Effect::RequireAuth(CREATOR),
            Effect::Transfer { token: TOKEN, from: CONTRACT, to: CREATOR, amount: 975 },
            Effect::Publish(Event::CreatorWithdrew { creator: CREATOR, amount: 975 }),
        ]
    );
    assert_eq!(StarPassContract::get_creator_balance(&env, CREATOR), 0);
    assert_eq!(owed(&env, CREATOR), 975);
    assert_eq!(paid_out(&env, CREATOR), 975);
    // Two prices came in, one balance went out: the rest is owed or fees.
    assert_eq!(holdings(&env), 1_025);
    assert_eq!(holdings(&env) - owed(&env, CREATOR), 50);
    assert_eq!(
        StarPassContract::withdraw(&mut env, CREATOR),
        Err(Failure::Abort(Abort::NoBalance))
    );

    let effects = env.effects.len();
    StarPassContract::withdraw_fees(&mut env, OTHER, 50).unwrap();
    assert_eq!(
        env.effects[effects..].to_vec(),
        vec![
            Effect::RequireAuth(ADMIN),
            Effect::Transfer { token: TOKEN, from: CONTRACT, to: OTHER, amount: 50 },
            Effect::Publish(Event::FeesWithdrawn { recipient: OTHER, amount: 50 }),
        ]
    );
    assert_eq!(holdings(&env), owed(&env, CREATOR));
}

#[test]
fn creators_have_accounts_of_their_own() {
    let mut env = ready();
    StarPassContract::register_creator(&mut env, OTHER).unwrap();
    let mine = fixed_tier(&mut env, 1_000, 0);
    let theirs = StarPassContract::create_tier(
        &mut env,
        OTHER,
        b"Other".to_vec(),
        2_000,
        100,
        0,
        Vec::new(),
    )
    .unwrap();
    assert_eq!((mine, theirs), (1, 2));
    sell(&mut env, mine);
    StarPassContract::mint_pass_quoted(&mut env, FAN, theirs, Vec::new(), None).unwrap();
    assert_eq!(owed(&env, CREATOR), 975);
    assert_eq!(owed(&env, OTHER), 1_950);

    env.timestamp = 9_000;
    assert_eq!(StarPassContract::process_unlocked_earnings(&mut env, OTHER), Ok(1));
    assert_eq!(StarPassContract::get_creator_balance(&env, CREATOR), 0);
    assert_eq!(StarPassContract::get_creator_balance(&env, OTHER), 1_950);
    assert_eq!(StarPassContract::get_creator_pass_count(&env, CREATOR), Ok(1));
    assert_eq!(StarPassContract::get_creator_pass_count(&env, OTHER), Ok(1));
    assert_eq!(StarPassContract::get_pass_count(&env), 2);
}

#[test]
fn pausing_stops_the_clock() {
    let mut env = ready();
    let tier_id = fixed_tier(&mut env, 1_000, 0);
    let pass_id = sell(&mut env, tier_id);

    env.timestamp = 1_030;
    StarPassContract::pause_pass(&mut env, FAN, pass_id).unwrap();
    assert!(!StarPassContract::has_valid_pass(&env, FAN, tier_id));
    assert!(!StarPassContract::has_any_valid_pass(&env, FAN, CREATOR));
    assert!(!StarPassContract::has_permission(
        &env,
        FAN,
        tier_id,
        Symbol::new("read".to_string())
    ));
    assert!(StarPassContract::get_fan_active_passes(&env, FAN).is_empty());

    env.timestamp = 5_000;
    StarPassContract::resume_pass(&mut env, FAN, pass_id).unwrap();
    assert_eq!(
        env.effects[env.effects.len() - 1],
        Effect::Publish(Event::PassResumed {
            pass_id,
            fan: FAN,
            timestamp: 5_000,
            paused_duration: 3_970,
        })
    );
    let pass = StarPassContract::get_pass(&env, pass_id).unwrap();
    assert_eq!(pass.expires_at, 5_070);
    assert_eq!(pass.total_paused_seconds, 3_970);
    assert!(!pass.paused);
    assert_eq!(pass.paused_at, 0);
    assert!(StarPassContract::has_valid_pass(&env, FAN, tier_id));
    env.timestamp = 5_070;
    assert!(!StarPassContract::has_valid_pass(&env, FAN, tier_id));
}

#[test]
fn passes_last_to_the_second() {
    let mut env = ready();
    let tier_id = fixed_tier(&mut env, 1_000, 0);
    sell(&mut env, tier_id);
    env.timestamp = 1_099;
    assert!(StarPassContract::has_valid_pass(&env, FAN, tier_id));
    assert!(!StarPassContract::has_valid_pass(&env, OTHER, tier_id));
    env.timestamp = 1_100;
    assert!(!StarPassContract::has_valid_pass(&env, FAN, tier_id));
}

#[test]
fn a_paused_pass_can_be_renewed_and_stays_paused() {
    let mut env = ready();
    let tier_id = fixed_tier(&mut env, 1_000, 0);
    let pass_id = sell(&mut env, tier_id);
    StarPassContract::pause_pass(&mut env, FAN, pass_id).unwrap();
    assert_eq!(StarPassContract::renew_pass_quoted(&mut env, FAN, pass_id, None), Ok(1_200));
    assert!(StarPassContract::get_pass(&env, pass_id).unwrap().paused);
    assert!(!StarPassContract::has_valid_pass(&env, FAN, tier_id));
    assert_eq!(StarPassContract::get_pass_count(&env), 1);
}

#[test]
fn deactivation_spares_passes() {
    let mut env = ready();
    let tier_id = fixed_tier(&mut env, 1_000, 0);
    let pass_id = sell(&mut env, tier_id);
    StarPassContract::deactivate_tier(&mut env, CREATOR, tier_id).unwrap();
    assert!(StarPassContract::has_valid_pass(&env, FAN, tier_id));
    assert_eq!(StarPassContract::renew_pass_quoted(&mut env, FAN, pass_id, None), Ok(1_200));
}

#[test]
fn new_prices_are_for_later_sales() {
    let mut env = ready();
    let tier_id = fixed_tier(&mut env, 1_000, 0);
    sell(&mut env, tier_id);
    StarPassContract::update_tier_price(&mut env, CREATOR, tier_id, 3_000).unwrap();
    assert_eq!(
        env.effects[env.effects.len() - 1],
        Effect::Publish(Event::TierPriceUpdated {
            tier_id,
            old_price: TierPriceMode::Fixed(1_000),
            new_price: 3_000,
        })
    );
    assert_eq!(owed(&env, CREATOR), 975);
    sell(&mut env, tier_id);
    assert_eq!(owed(&env, CREATOR), 975 + 2_925);

    let usd = usd_tier(&mut env, 5);
    StarPassContract::update_tier_price_usd(&mut env, CREATOR, usd, 8).unwrap();
    assert_eq!(
        StarPassContract::get_tier(&env, usd).unwrap().price,
        TierPriceMode::USDDenominated(8)
    );
}

#[test]
fn new_fees_are_for_later_payments() {
    let mut env = ready();
    let tier_id = fixed_tier(&mut env, 1_000, 0);
    sell(&mut env, tier_id);
    StarPassContract::set_fee(&mut env, 1_000).unwrap();
    assert_eq!(env.effects[env.effects.len() - 1], Effect::RequireAuth(ADMIN));
    sell(&mut env, tier_id);
    let earnings = StarPassContract::get_pending_earnings(&env, CREATOR);
    assert_eq!(earnings[0].amount, 975);
    assert_eq!(earnings[1].amount, 900);
}

#[test]
fn supply_is_not_exceeded() {
    let mut env = ready();
    let tier_id = fixed_tier(&mut env, 1_000, 2);
    sell(&mut env, tier_id);
    sell(&mut env, tier_id);
    assert_eq!(
        StarPassContract::mint_pass_quoted(&mut env, FAN, tier_id, Vec::new(), None),
        Err(Failure::Abort(Abort::TierSoldOut))
    );
    assert_eq!(StarPassContract::get_tier(&env, tier_id).unwrap().minted, 2);
}

#[test]
fn loans_last_until_they_expire_or_are_taken_back() {
    let mut env = ready();
    let tier_id = fixed_tier(&mut env, 1_000, 0);
    let may = |env: &Env, what: &str| {
        StarPassContract::has_permission(env, FAN, tier_id, Symbol::new(what.to_string()))
    };
    StarPassContract::grant_permission(&mut env, CREATOR, FAN, tier_id, symbols(&["write"]), 50)
        .unwrap();
    assert_eq!(
        env.effects[env.effects.len() - 2..].to_vec(),
        vec![
            Effect::RequireAuth(CREATOR),
            Effect::Publish(Event::PermissionGranted {
                creator: CREATOR,
                fan: FAN,
                tier_id,
                expires_at: 1_050,
            }),
        ]
    );
    env.timestamp = 1_049;
    assert!(may(&env, "write"));
    assert!(!may(&env, "read"));
    env.timestamp = 1_050;
    assert!(!may(&env, "write"));

    // A new loan takes the place of the old one, and may last for ever.
    StarPassContract::grant_permission(
        &mut env,
        CREATOR,
        FAN,
        tier_id,
        symbols(&["read"]),
        u64::MAX,
    )
    .unwrap();
    env.timestamp = u64::MAX - 1;
    assert!(may(&env, "read"));
    assert!(!may(&env, "write"));
    StarPassContract::revoke_permission_grant(&mut env, CREATOR, FAN, tier_id).unwrap();
    assert!(!may(&env, "read"));
    assert_eq!(
        env.effects[env.effects.len() - 1],
        Effect::Publish(Event::PermissionRevoked { creator: CREATOR, fan: FAN, tier_id })
    );
}

#[test]
fn pages_make_up_the_list() {
    let mut env = ready();
    for _ in 0..7 {
        fixed_tier(&mut env, 1_000, 0);
    }
    let mut seen: Vec<u32> = Vec::new();
    for offset in [0u32, 3, 6, 9] {
        seen.extend(StarPassContract::get_creator_tiers_page(&env, CREATOR, offset, 3).unwrap());
    }
    assert_eq!(seen, StarPassContract::get_creator_tiers(&env, CREATOR));
    assert_eq!(seen, vec![1, 2, 3, 4, 5, 6, 7]);
}

#[test]
fn setting_up_writes_the_configuration() {
    let mut env = Env::new(5, CONTRACT);
    StarPassContract::initialize(&mut env, ADMIN, TOKEN, 300, 60).unwrap();
    assert_eq!(env.storage.admin(), Some(ADMIN));
    assert_eq!(env.storage.token(), Some(TOKEN));
    assert_eq!(env.storage.protocol_fee_bps(), Some(300));
    assert_eq!(env.storage.lock_period_seconds(), Some(60));
    assert_eq!(env.storage.contract_version(), Some(1));
    assert_eq!(StarPassContract::get_min_withdrawal(&env), 0);
    assert_eq!(
        env.effects,
        vec![
            Effect::RequireAuth(ADMIN),
            Effect::Publish(Event::Initialized {
                admin: ADMIN,
                token: TOKEN,
                fee_bps: 300,
                lock_period_seconds: 60,
            }),
        ]
    );
    env.storage.clear_writes();
    assert!(env.storage.writes().is_empty());
    assert_eq!(env.storage.admin(), Some(ADMIN));
}

#[test]
fn the_admin_decides() {
    let mut env = ready();
    StarPassContract::set_oracle(&mut env, ADMIN, ORACLE).unwrap();
    assert_eq!(StarPassContract::get_oracle(&env), Some(ORACLE));
    StarPassContract::update_min_withdrawal(&mut env, ADMIN, 40).unwrap();
    assert_eq!(StarPassContract::get_min_withdrawal(&env), 40);
    let code = Bytes32 { high: 1, low: 2 };
    let effects = env.effects.len();
    StarPassContract::upgrade(&mut env, ADMIN, code).unwrap();
    StarPassContract::migrate(&mut env, ADMIN).unwrap();
    assert_eq!(
        env.effects[effects..].to_vec(),
        vec![
            Effect::RequireAuth(ADMIN),
            Effect::ReplaceCode(code),
            Effect::RequireAuth(ADMIN),
            Effect::Publish(Event::Migrated { from_version: 1, to_version: 2 }),
        ]
    );
}

#[test]
fn events_have_their_topics() {
    let mut env = ready();
    let topics: Vec<&str> = env
        .effects
        .iter()
        .filter_map(|effect| match effect {
            Effect::Publish(event) => Some(event.topic()),
            _ => None,
        })
        .collect();
    assert_eq!(topics, vec!["initialized", "creator_registered"]);
    fixed_tier(&mut env, 1_000, 0);
    match env.effects[env.effects.len() - 1] {
        Effect::Publish(event) => assert_eq!(event.topic(), "tier_created"),
        _ => panic!("no event"),
    }
}

#[test]
fn minted_passes_are_on_record() {
    let mut env = ready();
    let gold = fixed_tier(&mut env, 1_000, 3);
    let other = fixed_tier(&mut env, 2_000, 0);
    for tier_id in [gold, other, gold, other, other, gold] {
        sell(&mut env, tier_id);
    }
    StarPassContract::renew_pass_quoted(&mut env, FAN, 1, None).unwrap();
    let recorded = |tier_id: u32| {
        (1..=StarPassContract::get_pass_count(&env))
            .filter(|id| StarPassContract::get_pass(&env, *id).unwrap().tier_id == tier_id)
            .count() as u32
    };
    assert_eq!(recorded(gold), 3);
    assert_eq!(recorded(gold), StarPassContract::get_tier(&env, gold).unwrap().minted);
    assert_eq!(recorded(other), StarPassContract::get_tier(&env, other).unwrap().minted);
}

#[test]
fn books_balance() {
    let mut env = ready();
    let tier_id = fixed_tier(&mut env, 1_000, 0);
    let mut withdrawn = 0;
    for round in 1..=3u64 {
        sell(&mut env, tier_id);
        StarPassContract::renew_pass_quoted(&mut env, FAN, round, None).unwrap();
        env.timestamp += 4_000;
        StarPassContract::process_unlocked_earnings(&mut env, CREATOR).unwrap();
        if round != 3 {
            withdrawn += StarPassContract::get_creator_balance(&env, CREATOR);
            StarPassContract::withdraw(&mut env, CREATOR).unwrap();
        }
    }
    sell(&mut env, tier_id);

    let earnings = StarPassContract::get_pending_earnings(&env, CREATOR);
    let all: i128 = earnings.iter().map(|earning| earning.amount).sum();
    let released: i128 =
        earnings.iter().filter(|earning| earning.released).map(|earning| earning.amount).sum();
    assert_eq!(all, 7 * 975);
    assert_eq!(all, StarPassContract::get_creator(&env, CREATOR).unwrap().total_earned);
    assert_eq!(withdrawn, 4 * 975);
    assert_eq!(released, StarPassContract::get_creator_balance(&env, CREATOR) + withdrawn);
    assert_eq!(paid_out(&env, CREATOR), withdrawn);
}

#[test]
fn renewals_are_locked_as_sales_are() {
    let mut env = ready();
    let tier_id = fixed_tier(&mut env, 1_000, 0);
    let pass_id = sell(&mut env, tier_id);
    env.timestamp = 5_000;
    assert_eq!(StarPassContract::process_unlocked_earnings(&mut env, CREATOR), Ok(1));
    StarPassContract::renew_pass_quoted(&mut env, FAN, pass_id, None).unwrap();
    env.timestamp = 8_600;
    assert_eq!(StarPassContract::process_unlocked_earnings(&mut env, CREATOR), Ok(0));
    env.timestamp = 8_601;
    assert_eq!(StarPassContract::process_unlocked_earnings(&mut env, CREATOR), Ok(1));
}

#[test]
fn a_pass_without_permissions_gives_access() {
    let mut env = ready();
    let tier_id = fixed_tier(&mut env, 1_000, 0);
    StarPassContract::mint_pass_quoted(&mut env, FAN, tier_id, Vec::new(), None).unwrap();
    assert!(StarPassContract::has_valid_pass(&env, FAN, tier_id));
    assert!(StarPassContract::has_any_valid_pass(&env, FAN, CREATOR));
    let read = Symbol::new("read".to_string());
    assert!(!StarPassContract::has_permission(&env, FAN, tier_id, read));
}

#[test]
fn a_new_usd_price_is_what_the_next_sale_costs() {
    let mut env = ready();
    StarPassContract::set_oracle(&mut env, ADMIN, ORACLE).unwrap();
    let tier_id = usd_tier(&mut env, 5);
    let quote = Some((10, 1_000));
    StarPassContract::mint_pass_quoted(&mut env, FAN, tier_id, Vec::new(), quote).unwrap();
    assert_eq!(holdings(&env), 5_000_000);
    StarPassContract::update_tier_price_usd(&mut env, CREATOR, tier_id, 8).unwrap();
    assert_eq!(holdings(&env), 5_000_000);
    StarPassContract::mint_pass_quoted(&mut env, FAN, tier_id, Vec::new(), quote).unwrap();
    assert_eq!(holdings(&env), 13_000_000);
}

#[test]
fn a_sale_needs_only_the_entries_that_it_reads() {
    let mut full = ready();
    StarPassContract::register_creator(&mut full, OTHER).unwrap();
    fixed_tier(&mut full, 500, 0);
    let tier_id = fixed_tier(&mut full, 1_000, 0);
    sell(&mut full, 1);
    full.effects.clear();
    full.storage.clear_writes();

    let mut part = Env::new(full.timestamp, CONTRACT);
    part.storage.set_token(TOKEN);
    part.storage.set_protocol_fee_bps(full.storage.protocol_fee_bps().unwrap());
    part.storage.set_lock_period_seconds(full.storage.lock_period_seconds().unwrap());
    part.storage.set_pass_count(full.storage.pass_count().unwrap());
    part.storage.set_tier(tier_id, full.storage.tier(tier_id).unwrap());
    part.storage.set_creator(CREATOR, full.storage.creator(CREATOR).unwrap());
    part.storage.set_earning_count(CREATOR, full.storage.earning_count(CREATOR).unwrap());
    part.storage.set_passes_of_fan(FAN, full.storage.passes_of_fan(FAN).unwrap());
    part.storage.clear_writes();

    assert_eq!(sell(&mut part, tier_id), sell(&mut full, tier_id));
    assert_eq!(part.effects, full.effects);
    assert_eq!(part.storage.writes(), full.storage.writes());
    assert_eq!(part.storage.pass(2), full.storage.pass(2));
    assert_eq!(part.storage.tier(tier_id), full.storage.tier(tier_id));
    assert_eq!(part.storage.creator(CREATOR), full.storage.creator(CREATOR));
    assert_eq!(part.storage.earning(CREATOR, 1), full.storage.earning(CREATOR, 1));
    assert_eq!(part.storage.passes_of_fan(FAN), full.storage.passes_of_fan(FAN));
}

#[test]
fn books_balance_after_setting_up_again() {
    let mut env = ready();
    let tier_id = fixed_tier(&mut env, 1_000, 0);
    sell(&mut env, tier_id);
    env.timestamp = 5_000;
    StarPassContract::process_unlocked_earnings(&mut env, CREATOR).unwrap();
    StarPassContract::withdraw(&mut env, CREATOR).unwrap();

    // The numbering of tiers and passes starts again; the books go on.
    StarPassContract::initialize(&mut env, OTHER, TOKEN, 1_000, 60).unwrap();
    let again = fixed_tier(&mut env, 2_000, 0);
    assert_eq!(again, tier_id);
    sell(&mut env, again);
    env.timestamp = 6_000;
    StarPassContract::process_unlocked_earnings(&mut env, CREATOR).unwrap();
    sell(&mut env, again);

    let earnings = StarPassContract::get_pending_earnings(&env, CREATOR);
    let amounts: Vec<i128> = earnings.iter().map(|earning| earning.amount).collect();
    assert_eq!(amounts, vec![975, 1_800, 1_800]);
    assert_eq!(StarPassContract::get_creator(&env, CREATOR).unwrap().total_earned, 4_575);
    assert_eq!(StarPassContract::get_creator_balance(&env, CREATOR), 1_800);
    assert_eq!(paid_out(&env, CREATOR), 975);
}
