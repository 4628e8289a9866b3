use custom_pallet::model::{AccountId, Error, Event, Origin, Weight};
use custom_pallet::pallet::{Config, Pallet, WeightInfo};

const ALICE: AccountId = 1;
const BOB: AccountId = 2;

fn fresh(max: u32) -> Pallet {
    Pallet::new(Config { counter_max_value: max })
}

#[test]
fn new_pallet_is_empty() {
    let p = fresh(100);
    assert_eq!(p.counter_max_value(), 100);
    assert_eq!(p.counter_value(), None);
    assert_eq!(p.user_interactions(ALICE), None);
    assert!(p.events().is_empty());
}

#[test]
fn set_value_in_bound_is_stored_and_read_back() {
    let mut p = fresh(100);
    assert_eq!(p.set_counter_value(Origin::Root, 50), Ok(()));
    assert_eq!(p.counter_value(), Some(50));
    assert_eq!(p.events().len(), 1);
    assert_eq!(p.events()[0], Event::CounterValueSet { counter_value: 50 });
}

#[test]
fn set_value_above_max_fails_and_changes_nothing() {
    let mut p = fresh(100);
    assert_eq!(p.set_counter_value(Origin::Root, 40), Ok(()));
    assert_eq!(
        p.set_counter_value(Origin::Root, 101),
        Err(Error::CounterValueExceedsMax)
    );
    assert_eq!(p.counter_value(), Some(40));
    assert_eq!(p.events().len(), 1);
}

#[test]
fn set_value_at_exact_max_succeeds() {
    let mut p = fresh(100);
    assert_eq!(p.set_counter_value(Origin::Root, 100), Ok(()));
    assert_eq!(p.counter_value(), Some(100));
}

#[test]
fn set_value_with_zero_max_accepts_only_zero() {
    let mut p = fresh(0);
    assert_eq!(p.set_counter_value(Origin::Root, 0), Ok(()));
    assert_eq!(p.counter_value(), Some(0));
    assert_eq!(
        p.set_counter_value(Origin::Root, 1),
        Err(Error::CounterValueExceedsMax)
    );
}

#[test]
fn increment_in_bound_updates_counter_and_ledger() {
    let mut p = fresh(100);
    assert_eq!(p.increment(Origin::Signed(ALICE), 30), Ok(()));
    assert_eq!(p.counter_value(), Some(30));
    assert_eq!(p.user_interactions(ALICE), Some(1));
    assert_eq!(p.user_interactions(BOB), None);
    assert_eq!(p.increment(Origin::Signed(ALICE), 20), Ok(()));
    assert_eq!(p.counter_value(), Some(50));
    assert_eq!(p.user_interactions(ALICE), Some(2));
    assert_eq!(
        p.events()[1],
        Event::CounterIncremented {
            counter_value: 50,
            who: ALICE,
            incremented_amount: 20,
        }
    );
}

#[test]
fn increment_treats_absent_counter_as_zero() {
    let mut p = fresh(10);
    assert_eq!(p.counter_value(), None);
    assert_eq!(p.increment(Origin::Signed(ALICE), 10), Ok(()));
    assert_eq!(p.counter_value(), Some(10));
}

#[test]
fn increment_past_max_fails_and_changes_nothing() {
    let mut p = fresh(100);
    assert_eq!(p.set_counter_value(Origin::Root, 80), Ok(()));
    assert_eq!(
        p.increment(Origin::Signed(BOB), 25),
        Err(Error::CounterValueExceedsMax)
    );
    assert_eq!(p.counter_value(), Some(80));
    assert_eq!(p.user_interactions(BOB), None);
    assert_eq!(p.events().len(), 1);
}

#[test]
fn increment_overflowing_u32_fails_with_counter_overflow() {
    let mut p = fresh(u32::MAX);
    assert_eq!(p.set_counter_value(Origin::Root, u32::MAX), Ok(()));
    assert_eq!(
        p.increment(Origin::Signed(ALICE), 1),
        Err(Error::CounterOverflow)
    );
    assert_eq!(p.counter_value(), Some(u32::MAX));
    assert_eq!(p.user_interactions(ALICE), None);
}

#[test]
fn increment_with_saturated_ledger_fails_and_changes_nothing() {
    let snapshot = vec![(ALICE, u32::MAX)];
    let mut p = Pallet::restore(Config { counter_max_value: 100 }, Some(10), &snapshot);
    assert_eq!(
        p.increment(Origin::Signed(ALICE), 5),
        Err(Error::UserInteractionOverflow)
    );
    assert_eq!(p.counter_value(), Some(10));
    assert_eq!(p.user_interactions(ALICE), Some(u32::MAX));
    assert!(p.events().is_empty());
}

#[test]
fn decrement_in_bound_updates_counter_and_ledger() {
    let mut p = fresh(100);
    assert_eq!(p.set_counter_value(Origin::Root, 50), Ok(()));
    assert_eq!(p.decrement(Origin::Signed(ALICE), 20), Ok(()));
    assert_eq!(p.counter_value(), Some(30));
    assert_eq!(p.user_interactions(ALICE), Some(1));
    assert_eq!(
        p.events()[1],
        Event::CounterDecremented {
            counter_value: 30,
            who: ALICE,
            decremented_amount: 20,
        }
    );
}

#[test]
fn decrement_to_exactly_zero_succeeds() {
    let mut p = fresh(100);
    assert_eq!(p.set_counter_value(Origin::Root, 7), Ok(()));
    assert_eq!(p.decrement(Origin::Signed(ALICE), 7), Ok(()));
    assert_eq!(p.counter_value(), Some(0));
}

#[test]
fn decrement_below_zero_fails_and_changes_nothing() {
    let mut p = fresh(100);
    assert_eq!(p.set_counter_value(Origin::Root, 10), Ok(()));
    assert_eq!(
        p.decrement(Origin::Signed(ALICE), 11),
        Err(Error::CounterValueBelowZero)
    );
    assert_eq!(p.counter_value(), Some(10));
    assert_eq!(p.user_interactions(ALICE), None);
    assert_eq!(p.events().len(), 1);
}

#[test]
fn decrement_with_saturated_ledger_fails_and_changes_nothing() {
    let snapshot = vec![(ALICE, u32::MAX)];
    let mut p = Pallet::restore(Config { counter_max_value: 100 }, Some(10), &snapshot);
    assert_eq!(
        p.decrement(Origin::Signed(ALICE), 5),
        Err(Error::UserInteractionOverflow)
    );
    assert_eq!(p.counter_value(), Some(10));
    assert_eq!(p.user_interactions(ALICE), Some(u32::MAX));
}

#[test]
fn set_value_from_non_root_fails_whatever_the_argument() {
    let mut p = fresh(100);
    assert_eq!(
        p.set_counter_value(Origin::Signed(ALICE), 5),
        Err(Error::Unauthorized)
    );
    assert_eq!(p.set_counter_value(Origin::Unsigned, 0), Err(Error::Unauthorized));
    assert_eq!(
        p.set_counter_value(Origin::Signed(BOB), 1000),
        Err(Error::Unauthorized)
    );
    assert_eq!(p.counter_value(), None);
    assert!(p.events().is_empty());
}

#[test]
fn signed_only_operations_fail_without_a_signed_origin() {
    let mut p = fresh(100);
    assert_eq!(p.increment(Origin::Root, 5), Err(Error::Unauthorized));
    assert_eq!(p.increment(Origin::Unsigned, 5), Err(Error::Unauthorized));
    assert_eq!(p.decrement(Origin::Root, 5), Err(Error::Unauthorized));
    assert_eq!(p.decrement(Origin::Unsigned, 5), Err(Error::Unauthorized));
    assert_eq!(p.counter_value(), None);
    assert!(p.events().is_empty());
}

#[test]
fn repeating_a_failed_call_gives_the_same_error_and_state() {
    let mut p = fresh(100);
    assert_eq!(p.set_counter_value(Origin::Root, 80), Ok(()));
    let first = p.increment(Origin::Signed(BOB), 25);
    assert_eq!(first, Err(Error::CounterValueExceedsMax));
    let second = p.increment(Origin::Signed(BOB), 25);
    assert_eq!(second, first);
    assert_eq!(p.counter_value(), Some(80));
    assert_eq!(p.user_interactions(BOB), None);
    assert_eq!(p.events().len(), 1);
    let third = p.decrement(Origin::Signed(ALICE), 90);
    let fourth = p.decrement(Origin::Signed(ALICE), 90);
    assert_eq!(third, Err(Error::CounterValueBelowZero));
    assert_eq!(fourth, third);
    assert_eq!(p.counter_value(), Some(80));
}

#[test]
fn full_scenario_with_max_of_one_hundred() {
    let mut p = fresh(100);

    assert_eq!(p.set_counter_value(Origin::Root, 50), Ok(()));
    assert_eq!(p.counter_value(), Some(50));
    assert_eq!(p.events()[0], Event::CounterValueSet { counter_value: 50 });

    assert_eq!(p.increment(Origin::Signed(ALICE), 30), Ok(()));
    assert_eq!(p.counter_value(), Some(80));
    assert_eq!(p.user_interactions(ALICE), Some(1));
    assert_eq!(
        p.events()[1],
        Event::CounterIncremented {
            counter_value: 80,
            who: ALICE,
            incremented_amount: 30,
        }
    );

    assert_eq!(
        p.increment(Origin::Signed(BOB), 25),
        Err(Error::CounterValueExceedsMax)
    );
    assert_eq!(p.counter_value(), Some(80));
    assert_eq!(p.user_interactions(BOB), None);

    assert_eq!(
        p.decrement(Origin::Signed(ALICE), 90),
        Err(Error::CounterValueBelowZero)
    );
    assert_eq!(p.counter_value(), Some(80));
    assert_eq!(p.user_interactions(ALICE), Some(1));
    assert_eq!(p.events().len(), 2);
}

#[test]
fn restore_rebuilds_the_interaction_ledger() {
    let snapshot = vec![(ALICE, 3), (BOB, 9), (ALICE, 4)];
    let p = Pallet::restore(Config { counter_max_value: 100 }, Some(42), &snapshot);
    assert_eq!(p.counter_max_value(), 100);
    assert_eq!(p.counter_value(), Some(42));
    assert_eq!(p.user_interactions(ALICE), Some(4));
    assert_eq!(p.user_interactions(BOB), Some(9));
    assert_eq!(p.user_interactions(3), None);
    assert!(p.events().is_empty());
}

#[test]
fn restored_state_behaves_like_the_state_it_was_taken_from() {
    let snapshot = vec![(ALICE, 3)];
    let mut p = Pallet::restore(Config { counter_max_value: 100 }, Some(50), &snapshot);
    assert_eq!(p.increment(Origin::Signed(ALICE), 10), Ok(()));
    assert_eq!(p.counter_value(), Some(60));
    assert_eq!(p.user_interactions(ALICE), Some(4));
}

struct FlatWeights;

impl WeightInfo for FlatWeights {
    fn set_counter_value() -> Weight {
        10
    }

    fn increment() -> Weight {
        7
    }

    fn decrement() -> Weight {
        7
    }
}

#[test]
fn host_supplies_the_operation_weights() {
    assert_eq!(FlatWeights::set_counter_value(), 10);
    assert_eq!(FlatWeights::increment(), 7);
    assert_eq!(FlatWeights::decrement(), 7);
}
