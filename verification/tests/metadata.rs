use starpass::address::{strkey, Address, Bytes32};
use starpass::contract::StarPassContract;
use starpass::env::Env;
use starpass::failure::{Abort, Failure};
use starpass::metadata::{pass_metadata, tier_metadata};
use starpass::pricing::{OracleInterface, Quote};
use starpass::types::{Pass, Tier, TierPriceMode};

const CONTRACT: Address = Address::Contract(Bytes32 { high: 0, low: 1 });
const ADMIN: Address = Address::Account(Bytes32 { high: 0, low: 2 });
const CREATOR: Address = Address::Account(Bytes32 { high: 0, low: 3 });
const FAN: Address = Address::Account(Bytes32 { high: 0, low: 4 });
const TOKEN: Address = Address::Contract(Bytes32 { high: 0, low: 5 });

struct NoOracle;

impl OracleInterface for NoOracle {
    fn get_price(&self, _oracle: Address, _token: Address) -> Quote {
        panic!("the oracle was asked")
    }
}

fn setup_env() -> Env {
    let mut env = Env::new(0, CONTRACT);
    StarPassContract::initialize(&mut env, ADMIN, TOKEN, 250, 3600).unwrap();
    env
}

fn tier(env: &mut Env, name: &[u8], price: i128, duration: u64, max_supply: u32) -> u32 {
    StarPassContract::create_tier(
        env,
        CREATOR,
        name.to_vec(),
        price,
        duration,
        max_supply,
        Vec::new(),
    )
    .unwrap()
}

fn mint(env: &mut Env, tier_id: u32) -> u64 {
    StarPassContract::mint_pass(env, &NoOracle, FAN, tier_id, Vec::new()).unwrap()
}

fn text_contains(text: &[u8], needle: &[u8]) -> bool {
    text.windows(needle.len()).any(|part| part == needle)
}

#[test]
fn test_metadata_active_pass() {
    let mut env = setup_env();
    env.timestamp = 1_000_000;
    StarPassContract::register_creator(&mut env, CREATOR).unwrap();
    let tier_id = tier(&mut env, b"Gold", 1_000_000, 2_592_000, 0);
    let pass_id = mint(&mut env, tier_id);

    let meta = StarPassContract::get_pass_metadata(&env, pass_id).unwrap();

    assert!(text_contains(&meta, b"\"name\":\"Gold Pass\""), "name field missing or wrong");
    assert!(text_contains(&meta, b"StarPass access pass"), "description missing");
    assert!(
        text_contains(&meta, b"\"trait_type\":\"Tier\",\"value\":\"Gold\""),
        "Tier attribute missing"
    );
    assert!(
        text_contains(&meta, b"\"trait_type\":\"Status\",\"value\":\"active\""),
        "Status should be active"
    );
    assert!(
        text_contains(&meta, b"\"trait_type\":\"Expires\",\"value\":\"3592000\""),
        "Expires attribute wrong"
    );
    assert_eq!(meta[0], b'{');
    assert_eq!(meta[meta.len() - 1], b'}');
}

#[test]
fn test_metadata_expired_pass() {
    let mut env = setup_env();
    env.timestamp = 1_000;
    StarPassContract::register_creator(&mut env, CREATOR).unwrap();
    let tier_id = tier(&mut env, b"Silver", 1_000_000, 86_400, 0);
    let pass_id = mint(&mut env, tier_id);

    env.timestamp = 87_401;
    let meta = StarPassContract::get_pass_metadata(&env, pass_id).unwrap();

    assert!(
        text_contains(&meta, b"\"name\":\"Silver Pass\""),
        "name field wrong for expired pass"
    );
    assert!(
        text_contains(&meta, b"\"trait_type\":\"Status\",\"value\":\"expired\""),
        "Status should be expired"
    );
    assert!(
        text_contains(&meta, b"\"trait_type\":\"Expires\",\"value\":\"87400\""),
        "Expires attribute wrong"
    );
}

#[test]
fn test_metadata_inactive_pass() {
    let mut env = setup_env();
    env.timestamp = 1_000_000;
    StarPassContract::register_creator(&mut env, CREATOR).unwrap();
    let tier_id = tier(&mut env, b"Bronze", 1_000_000, 2_592_000, 0);
    let pass_id = mint(&mut env, tier_id);

    // No call switches a pass off, so the entry is written directly.
    let mut pass = env.storage.pass(pass_id).unwrap();
    pass.active = false;
    env.storage.set_pass(pass_id, pass);

    let meta = StarPassContract::get_pass_metadata(&env, pass_id).unwrap();
    assert!(
        text_contains(&meta, b"\"trait_type\":\"Status\",\"value\":\"inactive\""),
        "Status should be inactive"
    );
}

#[test]
fn test_metadata_no_expiry_pass() {
    let mut env = setup_env();
    env.timestamp = 1_000_000;
    StarPassContract::register_creator(&mut env, CREATOR).unwrap();
    let tier_id = tier(&mut env, b"Platinum", 1_000_000, 2_592_000, 0);
    let pass_id = mint(&mut env, tier_id);

    let mut pass = env.storage.pass(pass_id).unwrap();
    pass.expires_at = 0;
    env.storage.set_pass(pass_id, pass);

    let meta = StarPassContract::get_pass_metadata(&env, pass_id).unwrap();
    assert!(
        text_contains(&meta, b"\"trait_type\":\"Expires\",\"value\":\"never\""),
        "expires_at=0 should produce 'never'"
    );
}

#[test]
fn test_tier_collection_metadata_active() {
    let mut env = setup_env();
    StarPassContract::register_creator(&mut env, CREATOR).unwrap();
    let tier_id = tier(&mut env, b"Diamond", 5_000_000, 2_592_000, 100);

    let meta = StarPassContract::get_tier_collection_metadata(&env, tier_id).unwrap();

    assert!(text_contains(&meta, b"\"name\":\"Diamond\""), "name field wrong");
    assert!(text_contains(&meta, b"StarPass tier collection by"), "description prefix missing");
    assert!(
        text_contains(&meta, b"\"trait_type\":\"Price\",\"value\":\"5000000\""),
        "Price attribute wrong"
    );
    assert!(
        text_contains(&meta, b"\"trait_type\":\"Duration\",\"value\":\"2592000\""),
        "Duration attribute wrong"
    );
    assert!(
        text_contains(&meta, b"\"trait_type\":\"MaxSupply\",\"value\":\"100\""),
        "MaxSupply attribute wrong"
    );
    assert!(
        text_contains(&meta, b"\"trait_type\":\"Minted\",\"value\":\"0\""),
        "Minted attribute should be 0 before any mints"
    );
    assert!(
        text_contains(&meta, b"\"trait_type\":\"Active\",\"value\":\"true\""),
        "Active attribute wrong"
    );
    assert_eq!(meta[0], b'{');
    assert_eq!(meta[meta.len() - 1], b'}');
}

#[test]
fn test_tier_collection_metadata_unlimited_supply() {
    let mut env = setup_env();
    StarPassContract::register_creator(&mut env, CREATOR).unwrap();
    let tier_id = tier(&mut env, b"Free", 1_000_000, 86_400, 0);

    let meta = StarPassContract::get_tier_collection_metadata(&env, tier_id).unwrap();
    assert!(
        text_contains(&meta, b"\"trait_type\":\"MaxSupply\",\"value\":\"unlimited\""),
        "max_supply=0 should produce 'unlimited'"
    );
}

#[test]
fn test_tier_collection_metadata_inactive() {
    let mut env = setup_env();
    StarPassContract::register_creator(&mut env, CREATOR).unwrap();
    let tier_id = tier(&mut env, b"Retired", 1_000_000, 2_592_000, 0);
    StarPassContract::deactivate_tier(&mut env, CREATOR, tier_id).unwrap();

    let meta = StarPassContract::get_tier_collection_metadata(&env, tier_id).unwrap();
    assert!(
        text_contains(&meta, b"\"trait_type\":\"Active\",\"value\":\"false\""),
        "Active attribute should be false after deactivation"
    );
}

#[test]
fn strkeys_of_accounts_and_contracts() {
    let zero = Bytes32 { high: 0, low: 0 };
    let one = Bytes32 { high: 0, low: 1 };
    let counting = Bytes32 {
        high: 0x000102030405060708090a0b0c0d0e0f,
        low: 0x101112131415161718191a1b1c1d1e1f,
    };
    assert_eq!(
        strkey(Address::Account(zero)),
        b"GAAAAAAAAAAAAAAAAAAAAAAAAAAAAAAAAAAAAAAAAAAAAAAAAAAAAWHF"
    );
    assert_eq!(
        strkey(Address::Contract(zero)),
        b"CAAAAAAAAAAAAAAAAAAAAAAAAAAAAAAAAAAAAAAAAAAAAAAAAAAABSC4"
    );
    assert_eq!(
        strkey(Address::Account(one)),
        b"GAAAAAAAAAAAAAAAAAAAAAAAAAAAAAAAAAAAAAAAAAAAAAAAAAAAC6PV"
    );
    assert_eq!(
        strkey(Address::Contract(one)),
        b"CAAAAAAAAAAAAAAAAAAAAAAAAAAAAAAAAAAAAAAAAAAAAAAAAAAAD2KM"
    );
    assert_eq!(
        strkey(Address::Account(counting)),
        b"GAAACAQDAQCQMBYIBEFAWDANBYHRAEISCMKBKFQXDAMRUGY4DUPB7JZX"
    );
    assert_eq!(
        strkey(Address::Contract(counting)),
        b"CAAACAQDAQCQMBYIBEFAWDANBYHRAEISCMKBKFQXDAMRUGY4DUPB6N4O"
    );
}

/// A stand-in for a strkey, of the right length.
const KEY: &[u8; 56] = b"KEYKEYKEYKEYKEYKEYKEYKEYKEYKEYKEYKEYKEYKEYKEYKEYKEYKEYKE";

fn plain_pass() -> Pass {
    Pass {
        pass_id: 9,
        tier_id: 4,
        creator: CREATOR,
        owner: FAN,
        token: TOKEN,
        purchased_at: 10,
        expires_at: 110,
        active: true,
        paused: false,
        paused_at: 0,
        total_paused_seconds: 0,
        pass_permissions: Vec::new(),
    }
}

#[test]
fn pass_metadata_to_the_letter() {
    let text = pass_metadata(&plain_pass(), b"Gold", KEY, 50);
    let expected = "{\"name\":\"Gold Pass\",\"description\":\"StarPass access pass\",\
\"attributes\":[{\"trait_type\":\"Tier\",\"value\":\"Gold\"},\
{\"trait_type\":\"Creator\",\"value\":\"KEYKEYKEYKEYKEYKEYKEYKEYKEYKEYKEYKEYKEYKEYKEYKEYKEYKEYKE\"},\
{\"trait_type\":\"Expires\",\"value\":\"110\"},{\"trait_type\":\"Status\",\"value\":\"active\"}]}";
    assert_eq!(String::from_utf8(text).unwrap(), expected);
}

#[test]
fn pass_metadata_shows_a_pass_expired_from_its_expiry_on() {
    let pass = plain_pass();
    assert!(text_contains(&pass_metadata(&pass, b"Gold", KEY, 109), b"\"active\""));
    assert!(text_contains(&pass_metadata(&pass, b"Gold", KEY, 110), b"\"expired\""));
}

#[test]
fn pass_metadata_has_room_for_the_longest_values() {
    let mut pass = plain_pass();
    pass.expires_at = u64::MAX;
    pass.active = false;
    let text = pass_metadata(&pass, &[b'n'; 64], KEY, 0);
    assert!(text_contains(&text, b"\"18446744073709551615\""));
    assert!(text_contains(&text, b"\"inactive\"}]}"));
}

#[test]
fn tier_metadata_to_the_letter() {
    let tier = Tier {
        tier_id: 4,
        creator: CREATOR,
        name: b"Gold".to_vec(),
        price: TierPriceMode::Fixed(1_500),
        duration: 86_400,
        max_supply: 12,
        minted: 3,
        active: true,
        permissions: Vec::new(),
    };
    let expected = "{\"name\":\"Gold\",\"description\":\"StarPass tier collection by \
KEYKEYKEYKEYKEYKEYKEYKEYKEYKEYKEYKEYKEYKEYKEYKEYKEYKEYKE\",\"attributes\":[\
{\"trait_type\":\"Creator\",\"value\":\"KEYKEYKEYKEYKEYKEYKEYKEYKEYKEYKEYKEYKEYKEYKEYKEYKEYKEYKE\"},\
{\"trait_type\":\"Price\",\"value\":\"1500\"},{\"trait_type\":\"Duration\",\"value\":\"86400\"},\
{\"trait_type\":\"MaxSupply\",\"value\":\"12\"},{\"trait_type\":\"Minted\",\"value\":\"3\"},\
{\"trait_type\":\"Active\",\"value\":\"true\"}]}";
    assert_eq!(String::from_utf8(tier_metadata(&tier, KEY)).unwrap(), expected);
}

#[test]
fn tier_metadata_has_room_for_the_longest_values() {
    let tier = Tier {
        tier_id: u32::MAX,
        creator: CREATOR,
        name: vec![b'n'; 64],
        price: TierPriceMode::USDDenominated(i128::MIN),
        duration: u64::MAX,
        max_supply: u32::MAX,
        minted: u32::MAX,
        active: false,
        permissions: Vec::new(),
    };
    let text = tier_metadata(&tier, KEY);
    assert!(text_contains(&text, b"\"-170141183460469231731687303715884105728\""));
    assert!(text_contains(&text, b"\"18446744073709551615\""));
    assert!(text_contains(&text, b"\"false\"}]}"));
}

#[test]
fn metadata_names_the_creator_by_strkey() {
    let mut env = setup_env();
    StarPassContract::register_creator(&mut env, CREATOR).unwrap();
    let tier_id = tier(&mut env, b"Gold", 1_000_000, 86_400, 0);
    let pass_id = mint(&mut env, tier_id);

    let key = strkey(CREATOR);
    assert_eq!(key.len(), 56);
    let pass_text = StarPassContract::get_pass_metadata(&env, pass_id).unwrap();
    let tier_text = StarPassContract::get_tier_collection_metadata(&env, tier_id).unwrap();
    assert!(text_contains(&pass_text, &key));
    assert!(text_contains(&tier_text, &key));
    assert!(!text_contains(&pass_text, &strkey(FAN)));
}

#[test]
fn metadata_of_what_is_not_there() {
    let mut env = setup_env();
    assert_eq!(
        StarPassContract::get_pass_metadata(&env, 1),
        Err(Failure::Abort(Abort::PassNotFound))
    );
    assert_eq!(
        StarPassContract::get_tier_collection_metadata(&env, 1),
        Err(Failure::Abort(Abort::TierNotFound))
    );

    env.storage.set_pass(9, plain_pass());
    assert_eq!(
        StarPassContract::get_pass_metadata(&env, 9),
        Err(Failure::Abort(Abort::TierNotFound))
    );
}

#[test]
fn metadata_of_names_that_are_too_long() {
    let mut env = setup_env();
    StarPassContract::register_creator(&mut env, CREATOR).unwrap();
    let fits = tier(&mut env, &[b'n'; 64], 1_000_000, 86_400, 0);
    let too_long = tier(&mut env, &[b'n'; 65], 1_000_000, 86_400, 0);
    let pass_id = mint(&mut env, too_long);

    assert!(StarPassContract::get_tier_collection_metadata(&env, fits).is_ok());
    assert_eq!(
        StarPassContract::get_tier_collection_metadata(&env, too_long),
        Err(Failure::Abort(Abort::NameTooLong))
    );
    assert_eq!(
        StarPassContract::get_pass_metadata(&env, pass_id),
        Err(Failure::Abort(Abort::NameTooLong))
    );
}
