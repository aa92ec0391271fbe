use ag_coin::pallet::{Config, DispatchError, Error, Event, Pallet, RawOrigin};

struct Test;

impl Config for Test {
    type AccountId = u64;
}

fn last_stored(p: &Pallet<Test>) -> Option<(u32, u64)> {
    match p.last_event() {
        Some(Event::SomethingStored { something, who }) => Some((*something, *who)),
        None => None,
    }
}

#[test]
fn it_works_for_default_value() {
    let mut p = Pallet::<Test>::new();
    p.set_block_number(1);
    assert_eq!(p.do_something(RawOrigin::Signed(1), 42), Ok(()));
    assert_eq!(p.something(), Some(42));
    assert_eq!(last_stored(&p), Some((42, 1)));
}

#[test]
fn correct_error_for_none_value() {
    let mut p = Pallet::<Test>::new();
    let before = (p.something(), p.block_number(), p.events().len());
    assert_eq!(p.cause_error(RawOrigin::Signed(1)), Err(DispatchError::Module(Error::NoneValue)));
    assert_eq!((p.something(), p.block_number(), p.events().len()), before);
}

#[test]
fn benchmark_do_something_stores_value() {
    let mut p = Pallet::<Test>::new();
    assert_eq!(p.do_something(RawOrigin::Signed(7), 100), Ok(()));
    assert_eq!(p.something(), Some(100));
}

#[test]
fn benchmark_cause_error_increments() {
    let mut p = Pallet::<Test>::new();
    p.put_something(100);
    assert_eq!(p.cause_error(RawOrigin::Signed(7)), Ok(()));
    assert_eq!(p.something(), Some(101));
    assert!(p.events().is_empty());
}

#[test]
fn cause_error_overflow_is_refused() {
    let mut p = Pallet::<Test>::new();
    p.set_block_number(3);
    p.put_something(u32::MAX);
    assert_eq!(p.cause_error(RawOrigin::Signed(1)), Err(DispatchError::Module(Error::StorageOverflow)));
    assert_eq!(p.something(), Some(u32::MAX));
    assert!(p.events().is_empty());
}

#[test]
fn unsigned_and_root_origins_are_refused() {
    let mut p = Pallet::<Test>::new();
    p.set_block_number(1);
    assert_eq!(p.do_something(RawOrigin::Root, 5), Err(DispatchError::BadOrigin));
    assert_eq!(p.do_something(RawOrigin::Unsigned, 5), Err(DispatchError::BadOrigin));
    assert_eq!(p.something(), None);
    assert!(p.events().is_empty());
    p.put_something(9);
    assert_eq!(p.cause_error(RawOrigin::Root), Err(DispatchError::BadOrigin));
    assert_eq!(p.cause_error(RawOrigin::Unsigned), Err(DispatchError::BadOrigin));
    assert_eq!(p.something(), Some(9));
}

#[test]
fn no_events_at_genesis_block() {
    let mut p = Pallet::<Test>::new();
    assert_eq!(p.do_something(RawOrigin::Signed(2), 8), Ok(()));
    assert_eq!(p.something(), Some(8));
    assert!(p.events().is_empty());
    assert_eq!(last_stored(&p), None);
}

#[test]
fn store_then_increment() {
    let mut p = Pallet::<Test>::new();
    p.set_block_number(5);
    assert_eq!(p.do_something(RawOrigin::Signed(1), 41), Ok(()));
    assert_eq!(p.cause_error(RawOrigin::Signed(2)), Ok(()));
    assert_eq!(p.something(), Some(42));
    assert_eq!(p.events().len(), 1);
    assert_eq!(last_stored(&p), Some((41, 1)));
    assert_eq!(p.do_something(RawOrigin::Signed(3), 7), Ok(()));
    assert_eq!(p.events().len(), 2);
    assert_eq!(last_stored(&p), Some((7, 3)));
    p.set_block_number(6);
    assert_eq!(p.events().len(), 2);
    p.reset_events();
    assert!(p.events().is_empty());
    assert_eq!(p.something(), Some(7));
}

#[test]
fn store_max_then_increment_overflows() {
    let mut p = Pallet::<Test>::new();
    p.set_block_number(1);
    assert_eq!(p.do_something(RawOrigin::Signed(1), u32::MAX), Ok(()));
    assert_eq!(p.cause_error(RawOrigin::Signed(1)), Err(DispatchError::Module(Error::StorageOverflow)));
    assert_eq!(p.something(), Some(u32::MAX));
    assert_eq!(p.events().len(), 1);
}
