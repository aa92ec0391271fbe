use ag_coin::runtime::{
    BLOCK_HASH_COUNT, DAYS, EXISTENTIAL_DEPOSIT, HOURS, MICRO_UNIT, MILLI_SECS_PER_BLOCK, MILLI_UNIT, MINIMUM_PERIOD,
    MINUTES, SLOT_DURATION, SPEC_NAME, SPEC_VERSION, SS58_PREFIX, TRANSACTION_VERSION, UNIT,
};

#[test]
fn time_units() {
    assert_eq!(MILLI_SECS_PER_BLOCK, 6000);
    assert_eq!(MINUTES, 10);
    assert_eq!(HOURS, 600);
    assert_eq!(DAYS, 14_400);
    assert_eq!(SLOT_DURATION, 6000);
    assert_eq!(MINIMUM_PERIOD, 3000);
    assert_eq!(BLOCK_HASH_COUNT, 2400);
}

#[test]
fn currency_units() {
    assert_eq!(UNIT, 1_000_000_000_000);
    assert_eq!(MILLI_UNIT, 1_000_000_000);
    assert_eq!(MICRO_UNIT, 1_000_000);
    assert_eq!(EXISTENTIAL_DEPOSIT, MILLI_UNIT);
}

#[test]
fn version_and_prefix() {
    assert_eq!(SPEC_NAME, "solochain-template-runtime");
    assert_eq!(SPEC_VERSION, 100);
    assert_eq!(TRANSACTION_VERSION, 1);
    assert_eq!(SS58_PREFIX, 42);
}
