use nexus_vft::amount::Amount;
use nexus_vft::identity::Identity;
use nexus_vft::ledger::Ledger;
use nexus_vft::service::{NexusVftError, NexusVftProgram, NexusVftService, NexusVftStorage};

fn actor(id: u64) -> Identity {
    Identity::new(gstd::ActorId::from(id).into_bytes())
}

fn amount(value: u128) -> Amount {
    Amount { limbs: sails_rs::U256::from(value).0 }
}

fn number(amount: Amount) -> sails_rs::U256 {
    sails_rs::U256(amount.limbs)
}

#[test]
fn identity_keeps_its_bytes() {
    let mut bytes = [0u8; 32];
    bytes[0] = 7;
    bytes[31] = 9;
    let id = Identity::new(bytes);
    assert_eq!(id.bytes, bytes);
    assert_eq!(gstd::ActorId::new(id.bytes).into_bytes(), bytes);
    assert_ne!(actor(1), actor(2));
    assert_eq!(actor(3), actor(3));
}

#[test]
fn amount_zero_is_zero() {
    assert_eq!(Amount::zero().limbs, [0, 0, 0, 0]);
    assert_eq!(number(Amount::zero()), sails_rs::U256::zero());
}

#[test]
fn amount_checked_add_is_exact() {
    assert_eq!(amount(2).checked_add(amount(3)), Some(amount(5)));
    assert_eq!(amount(0).checked_add(amount(0)), Some(amount(0)));
    let sum = amount(u128::MAX).checked_add(amount(1)).unwrap();
    assert_eq!(sum.limbs, [0, 0, 1, 0]);
    let sum = amount(u64::MAX as u128).checked_add(amount(u64::MAX as u128)).unwrap();
    assert_eq!(sum.limbs, [u64::MAX - 1, 1, 0, 0]);
    let expected = sails_rs::U256::from(500000_000000000000000000u128)
        + sails_rs::U256::from(500000_000000000000000000u128);
    let sum = amount(500000_000000000000000000u128)
        .checked_add(amount(500000_000000000000000000u128))
        .unwrap();
    assert_eq!(number(sum), expected);
    assert_eq!(number(sum), sails_rs::U256::from(1000000_000000000000000000u128));
}

#[test]
fn amount_checked_add_refuses_overflow() {
    let max = Amount { limbs: [u64::MAX; 4] };
    assert_eq!(max.checked_add(amount(1)), None);
    assert_eq!(amount(1).checked_add(max), None);
    assert_eq!(max.checked_add(max), None);
    assert_eq!(max.checked_add(amount(0)), Some(max));
    let half = Amount { limbs: [0, 0, 0, 1 << 63] };
    assert_eq!(half.checked_add(half), None);
    let below = Amount { limbs: [u64::MAX, u64::MAX, u64::MAX, (1 << 63) - 1] };
    assert_eq!(half.checked_add(below), Some(max));
}

#[test]
fn fresh_ledger_is_empty() {
    let ledger = Ledger::seed("TokenName".to_string(), "TokenSymbol".to_string(), 18);
    assert_eq!(ledger.name(), "TokenName");
    assert_eq!(ledger.symbol(), "TokenSymbol");
    assert_eq!(ledger.decimals(), 18);
    assert_eq!(ledger.total_supply(), amount(0));
    assert_eq!(ledger.balance_of(actor(1)), amount(0));
    assert!(ledger.balances().is_empty());
}

#[test]
fn credit_adds_to_balance_and_supply() {
    let mut ledger = Ledger::seed("T".to_string(), "TK".to_string(), 0);
    assert!(ledger.credit(actor(1), amount(10)));
    assert!(ledger.credit(actor(2), amount(5)));
    assert!(ledger.credit(actor(1), amount(1)));
    assert_eq!(ledger.balance_of(actor(1)), amount(11));
    assert_eq!(ledger.balance_of(actor(2)), amount(5));
    assert_eq!(ledger.balance_of(actor(3)), amount(0));
    assert_eq!(ledger.total_supply(), amount(16));
    let mut listed = ledger.balances();
    listed.sort_by_key(|pair| pair.0.bytes);
    let mut expected = vec![(actor(1), amount(11)), (actor(2), amount(5))];
    expected.sort_by_key(|pair| pair.0.bytes);
    assert_eq!(listed, expected);
}

#[test]
fn credit_that_would_overflow_leaves_the_ledger() {
    let max = Amount { limbs: [u64::MAX; 4] };
    let mut ledger = Ledger::seed("T".to_string(), "TK".to_string(), 0);
    assert!(ledger.credit(actor(1), amount(10)));
    assert!(!ledger.credit(actor(2), max));
    assert_eq!(ledger.balance_of(actor(2)), amount(0));
    assert_eq!(ledger.total_supply(), amount(10));
    assert_eq!(ledger.balances(), vec![(actor(1), amount(10))]);
}

#[test]
fn restored_ledger_holds_what_it_was_given() {
    let list = vec![(actor(1), amount(4)), (actor(2), amount(6)), (actor(1), amount(9))];
    let ledger = Ledger::restore("N".to_string(), "S".to_string(), 3, &list, amount(100));
    assert_eq!(ledger.name(), "N");
    assert_eq!(ledger.symbol(), "S");
    assert_eq!(ledger.decimals(), 3);
    assert_eq!(ledger.balance_of(actor(1)), amount(9));
    assert_eq!(ledger.balance_of(actor(2)), amount(6));
    assert_eq!(ledger.total_supply(), amount(100));
    assert_eq!(ledger.balances().len(), 2);
}

#[test]
fn service_works_on_a_ledger_brought_in() {
    let mut service = NexusVftService::new(actor(42));
    let list = vec![(actor(1), amount(4))];
    service.set_ledger(Ledger::restore("N".to_string(), "S".to_string(), 3, &list, amount(4)));
    assert!(service.is_admin(actor(42)));
    assert_eq!(service.mint(actor(42), actor(1), amount(6)), Ok(true));
    assert_eq!(service.balance_of(actor(1)), amount(10));
    assert_eq!(service.total_supply(), amount(10));
    assert_eq!(service.name(), "N");
    assert_eq!(service.mint(actor(1), actor(1), amount(6)), Err(NexusVftError::Unauthorized));
}

#[test]
fn default_storage_has_no_admin() {
    let storage = NexusVftStorage::default();
    assert!(!storage.is_initialized());
    assert!(!storage.has_admin(actor(42)));
    assert!(!storage.has_admin(actor(0)));
}

#[test]
fn seeded_deploy_with_large_balances() {
    let mut program = NexusVftProgram::initialize(
        actor(42),
        "TokenName".to_string(),
        "TokenSymbol".to_string(),
        18,
        vec![
            (actor(45), amount(500000_000000000000000000u128)),
            (actor(46), amount(500000_000000000000000000u128)),
        ],
    )
    .unwrap();
    let service = program.nexus_vft();
    assert!(service.get().is_initialized());
    assert_eq!(number(service.balance_of(actor(45))), 500000_000000000000000000u128.into());
    assert_eq!(number(service.balance_of(actor(46))), 500000_000000000000000000u128.into());
    assert_eq!(service.mint(actor(42), actor(42), amount(100)), Ok(true));
    assert_eq!(number(service.balance_of(actor(42))), 100.into());
    assert_eq!(number(service.total_supply()), 1000000_000000000000000100u128.into());
}
