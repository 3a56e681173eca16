use extrinsic_fees::{
    testnet_fee_registry, Alternative, Balances, CallFeeResolver, CallId, ExtrinsicFeeCharger, FeeCategory,
    FeeError, FeeRegistry, OverflowTerm,
};

const PAYER: u64 = 1;

fn registry(base: u128, rate: u128, transfer: u128) -> FeeRegistry {
    let mut r = FeeRegistry::new();
    r.set(FeeCategory::base(), base);
    r.set(FeeCategory::bytes(), rate);
    r.set(FeeCategory::transfer(), transfer);
    r
}

fn funded(balance: u128) -> Balances {
    let mut b = Balances::new();
    b.set_balance(PAYER, balance);
    b
}

fn other_call() -> CallId {
    CallId { module: 7, method: 3 }
}

#[test]
fn transfer_pays_base_and_transfer_fee() {
    let reg = testnet_fee_registry();
    let routes = CallFeeResolver::runtime();
    let mut b = funded(10);
    let r = ExtrinsicFeeCharger::charge_extrinsic_fee(&reg, &routes, &mut b, PAYER, 200, CallId::transfer());
    assert_eq!(r, Ok(()));
    assert_eq!(ExtrinsicFeeCharger::total_fee(&reg, &routes, 200, CallId::transfer()), Ok(2));
    assert_eq!(b.balance_of(PAYER), 8);
}

#[test]
fn unrouted_call_pays_base_only() {
    let reg = testnet_fee_registry();
    let routes = CallFeeResolver::runtime();
    let mut b = funded(10);
    let r = ExtrinsicFeeCharger::charge_extrinsic_fee(&reg, &routes, &mut b, PAYER, 200, other_call());
    assert_eq!(r, Ok(()));
    assert_eq!(ExtrinsicFeeCharger::total_fee(&reg, &routes, 200, other_call()), Ok(1));
    assert_eq!(b.balance_of(PAYER), 9);
}

#[test]
fn base_plus_bytes_overflow_leaves_balance() {
    let reg = registry(u128::MAX, 1, 1);
    let routes = CallFeeResolver::runtime();
    let mut b = funded(u128::MAX);
    let r = ExtrinsicFeeCharger::charge_extrinsic_fee(&reg, &routes, &mut b, PAYER, 1, other_call());
    assert_eq!(r, Err(FeeError::Overflow(OverflowTerm::BaseBytes)));
    assert_eq!(b.balance_of(PAYER), u128::MAX);
}

#[test]
fn bytes_fee_is_rate_times_length() {
    let reg = registry(5, 3, 11);
    let routes = CallFeeResolver::runtime();
    let mut b = funded(1000);
    assert_eq!(ExtrinsicFeeCharger::total_fee(&reg, &routes, 100, other_call()), Ok(305));
    let r = ExtrinsicFeeCharger::charge_extrinsic_fee(&reg, &routes, &mut b, PAYER, 100, other_call());
    assert_eq!(r, Ok(()));
    assert_eq!(b.balance_of(PAYER), 695);
}

#[test]
fn routed_call_adds_its_fee() {
    let reg = registry(5, 3, 11);
    let routes = CallFeeResolver::runtime();
    let mut b = funded(1000);
    let r = ExtrinsicFeeCharger::charge_extrinsic_fee(&reg, &routes, &mut b, PAYER, 100, CallId::transfer());
    assert_eq!(r, Ok(()));
    assert_eq!(b.balance_of(PAYER), 1000 - 316);
}

#[test]
fn unrouted_call_fee_is_zero() {
    let reg = registry(5, 3, 11);
    let routes = CallFeeResolver::runtime();
    assert_eq!(routes.resolve(&reg, other_call()), Ok(0));
    assert_eq!(routes.resolve(&reg, CallId::transfer()), Ok(11));
    // same module, other method
    let same_module = CallId { module: CallId::transfer().module, method: 9 };
    assert_eq!(routes.resolve(&reg, same_module), Ok(0));
    assert_eq!(CallFeeResolver::new().resolve(&reg, CallId::transfer()), Ok(0));
}

#[test]
fn total_fee_is_the_same_when_computed_twice() {
    let reg = registry(5, 3, 11);
    let routes = CallFeeResolver::runtime();
    let first = ExtrinsicFeeCharger::total_fee(&reg, &routes, 42, CallId::transfer());
    let second = ExtrinsicFeeCharger::total_fee(&reg, &routes, 42, CallId::transfer());
    assert_eq!(first, second);
    assert_eq!(first, Ok(5 + 3 * 42 + 11));
}

#[test]
fn bytes_overflow_is_reported_and_nothing_debited() {
    let reg = registry(0, u128::MAX, 0);
    let routes = CallFeeResolver::runtime();
    let mut b = funded(u128::MAX);
    let r = ExtrinsicFeeCharger::charge_extrinsic_fee(&reg, &routes, &mut b, PAYER, 2, other_call());
    assert_eq!(r, Err(FeeError::Overflow(OverflowTerm::Bytes)));
    assert_eq!(b.balance_of(PAYER), u128::MAX);
}

#[test]
fn call_overflow_is_reported_and_nothing_debited() {
    let reg = registry(u128::MAX - 1, 0, 2);
    let routes = CallFeeResolver::runtime();
    let mut b = funded(u128::MAX);
    let r = ExtrinsicFeeCharger::charge_extrinsic_fee(&reg, &routes, &mut b, PAYER, 10, CallId::transfer());
    assert_eq!(r, Err(FeeError::Overflow(OverflowTerm::BaseBytesCall)));
    assert_eq!(b.balance_of(PAYER), u128::MAX);
}

#[test]
fn fee_exactly_max_is_charged() {
    let reg = registry(u128::MAX - 1, 0, 1);
    let routes = CallFeeResolver::runtime();
    let mut b = funded(u128::MAX);
    let r = ExtrinsicFeeCharger::charge_extrinsic_fee(&reg, &routes, &mut b, PAYER, 10, CallId::transfer());
    assert_eq!(r, Ok(()));
    assert_eq!(b.balance_of(PAYER), 0);
}

#[test]
fn insufficient_balance_changes_nothing() {
    let reg = testnet_fee_registry();
    let routes = CallFeeResolver::runtime();
    let mut b = funded(1);
    b.set_balance(2, 50);
    let r = ExtrinsicFeeCharger::charge_extrinsic_fee(&reg, &routes, &mut b, PAYER, 200, CallId::transfer());
    assert_eq!(r, Err(FeeError::InsufficientBalance));
    assert_eq!(b.balance_of(PAYER), 1);
    assert_eq!(b.balance_of(2), 50);
}

#[test]
fn unknown_payer_has_no_funds() {
    let reg = testnet_fee_registry();
    let routes = CallFeeResolver::runtime();
    let mut b = Balances::new();
    let r = ExtrinsicFeeCharger::charge_extrinsic_fee(&reg, &routes, &mut b, 99, 0, other_call());
    assert_eq!(r, Err(FeeError::InsufficientBalance));
    assert_eq!(b.balance_of(99), 0);
}

#[test]
fn balance_equal_to_fee_is_enough() {
    let reg = testnet_fee_registry();
    let routes = CallFeeResolver::runtime();
    let mut b = funded(2);
    let r = ExtrinsicFeeCharger::charge_extrinsic_fee(&reg, &routes, &mut b, PAYER, 0, CallId::transfer());
    assert_eq!(r, Ok(()));
    assert_eq!(b.balance_of(PAYER), 0);
}

#[test]
fn missing_bytes_rate_is_a_configuration_error() {
    let mut reg = FeeRegistry::new();
    reg.set(FeeCategory::base(), 1);
    let routes = CallFeeResolver::runtime();
    let mut b = funded(10);
    let r = ExtrinsicFeeCharger::charge_extrinsic_fee(&reg, &routes, &mut b, PAYER, 1, other_call());
    assert_eq!(r, Err(FeeError::MissingRegistryEntry(FeeCategory::bytes())));
    assert_eq!(b.balance_of(PAYER), 10);
    assert_eq!(reg.check_configured(), Err(FeeError::MissingRegistryEntry(FeeCategory::bytes())));
}

#[test]
fn missing_base_fee_is_a_configuration_error() {
    let mut reg = FeeRegistry::new();
    reg.set(FeeCategory::bytes(), 0);
    let routes = CallFeeResolver::runtime();
    assert_eq!(
        ExtrinsicFeeCharger::total_fee(&reg, &routes, 1, other_call()),
        Err(FeeError::MissingRegistryEntry(FeeCategory::base()))
    );
    assert_eq!(reg.check_configured(), Err(FeeError::MissingRegistryEntry(FeeCategory::base())));
    assert_eq!(testnet_fee_registry().check_configured(), Ok(()));
}

#[test]
fn routed_category_without_amount_is_an_error() {
    let mut reg = FeeRegistry::new();
    reg.set(FeeCategory::base(), 1);
    reg.set(FeeCategory::bytes(), 0);
    let routes = CallFeeResolver::runtime();
    let mut b = funded(10);
    let r = ExtrinsicFeeCharger::charge_extrinsic_fee(&reg, &routes, &mut b, PAYER, 1, CallId::transfer());
    assert_eq!(r, Err(FeeError::MissingRegistryEntry(FeeCategory::transfer())));
    assert_eq!(b.balance_of(PAYER), 10);
}

#[test]
fn registry_update_applies_to_next_charge() {
    let mut reg = testnet_fee_registry();
    let routes = CallFeeResolver::runtime();
    let mut b = funded(10);
    assert_eq!(ExtrinsicFeeCharger::charge_extrinsic_fee(&reg, &routes, &mut b, PAYER, 0, CallId::transfer()), Ok(()));
    assert_eq!(b.balance_of(PAYER), 8);
    reg.set(FeeCategory::transfer(), 5);
    assert_eq!(reg.amount_of(FeeCategory::transfer()), Some(5));
    assert_eq!(reg.amount_of(FeeCategory::base()), Some(1));
    assert_eq!(ExtrinsicFeeCharger::charge_extrinsic_fee(&reg, &routes, &mut b, PAYER, 0, CallId::transfer()), Ok(()));
    assert_eq!(b.balance_of(PAYER), 2);
}

#[test]
fn new_route_charges_its_category() {
    let mut reg = testnet_fee_registry();
    let custom = FeeCategory { namespace: 9, variant: 4 };
    reg.set(custom, 7);
    let mut routes = CallFeeResolver::runtime();
    routes.route(other_call(), custom);
    assert_eq!(routes.category_of(other_call()), Some(custom));
    assert_eq!(ExtrinsicFeeCharger::total_fee(&reg, &routes, 3, other_call()), Ok(8));
    assert_eq!(ExtrinsicFeeCharger::total_fee(&reg, &routes, 3, CallId::transfer()), Ok(2));
}

#[test]
fn distinct_categories_have_distinct_keys() {
    assert_ne!(FeeCategory::base().key(), FeeCategory::bytes().key());
    assert_ne!(FeeCategory { namespace: 1, variant: 0 }.key(), FeeCategory { namespace: 0, variant: 1 }.key());
    assert_eq!(extrinsic_fees::pair_key(1, 2), (1u64 << 32) | 2);
}

#[test]
fn alternative_from_names() {
    assert_eq!(Alternative::from("dev"), Some(Alternative::Development));
    assert_eq!(Alternative::from("local"), Some(Alternative::LocalTestnet));
    assert_eq!(Alternative::from(""), Some(Alternative::LocalTestnet));
    assert_eq!(Alternative::from("staging"), None);
    assert_eq!(Alternative::from("Dev"), None);
}

#[test]
fn debit_deducts_or_refuses() {
    let mut b = funded(30);
    assert_eq!(b.debit(PAYER, 12), Ok(()));
    assert_eq!(b.balance_of(PAYER), 18);
    assert_eq!(b.debit(PAYER, 19), Err(FeeError::InsufficientBalance));
    assert_eq!(b.balance_of(PAYER), 18);
    assert_eq!(b.debit(PAYER, 18), Ok(()));
    assert_eq!(b.balance_of(PAYER), 0);
}
