//! The mathematical model of the counter state machine.
//!
//! A [`StateView`] is a snapshot of the machine's durable state together with
//! the events it has emitted. Each operation is described by two spec
//! functions: a `..._result` function that says exactly when the operation
//! succeeds and which error it returns otherwise, and a `..._state` function
//! that gives the state after the call — the updated state on success, the
//! snapshot unchanged on any failure.

use vstd::prelude::*;

verus! {

/// Identity of an ordinary signed account, as resolved by the host.
pub type AccountId = u64;

/// A resource cost reported to the host for scheduling and fee purposes.
pub type Weight = u64;

/// The authorization level the host attaches to an incoming call.
#[derive(Clone, Copy, Debug, PartialEq, Eq, Structural)]
pub enum Origin {
    /// The privileged (root) origin.
    Root,
    /// An ordinary signed account.
    Signed(AccountId),
    /// A caller that is neither privileged nor a signed account.
    Unsigned,
}

/// Why an operation was refused. Every error leaves the state unchanged.
#[derive(Clone, Copy, Debug, PartialEq, Eq, Structural)]
pub enum Error {
    /// The caller's origin does not match the operation's required
    /// authorization level.
    Unauthorized,
    /// The resulting counter value would exceed the configured maximum.
    CounterValueExceedsMax,
    /// The decrement would take the counter below zero.
    CounterValueBelowZero,
    /// The increment's addition would exceed the 32-bit range.
    CounterOverflow,
    /// The per-account interaction counter would exceed the 32-bit range.
    UserInteractionOverflow,
}

/// The audit event appended on each successful operation.
#[derive(Clone, Copy, Debug, PartialEq, Eq, Structural)]
pub enum Event {
    /// The counter was set by the privileged origin.
    CounterValueSet {
        /// The value that was stored.
        counter_value: u32,
    },
    /// A signed account incremented the counter.
    CounterIncremented {
        /// The counter value after the increment.
        counter_value: u32,
        /// The account that incremented the counter.
        who: AccountId,
        /// The amount added.
        incremented_amount: u32,
    },
    /// A signed account decremented the counter.
    CounterDecremented {
        /// The counter value after the decrement.
        counter_value: u32,
        /// The account that decremented the counter.
        who: AccountId,
        /// The amount subtracted.
        decremented_amount: u32,
    },
}

/// A snapshot of the machine: configuration, durable state, and the events
/// emitted so far.
#[verifier::ext_equal]
pub struct StateView {
    /// The host-configured upper bound on the counter.
    pub counter_max_value: u32,
    /// The stored counter, absent until first set.
    pub counter_value: Option<u32>,
    /// How many successful increments and decrements each account has made;
    /// an entry exists only once its account has succeeded at least once.
    pub user_interactions: Map<AccountId, u32>,
    /// The audit events, oldest first.
    pub events: Seq<Event>,
}

/// The counter reading: an absent counter reads as zero.
pub open spec fn counter_or_zero(counter_value: Option<u32>) -> u32 {
    match counter_value {
        Some(v) => v,
        None => 0,
    }
}

/// An account's interaction count: a missing entry counts as zero.
pub open spec fn interactions_or_zero(interactions: Map<AccountId, u32>, who: AccountId) -> u32 {
    if interactions.contains_key(who) {
        interactions[who]
    } else {
        0
    }
}

/// Well-formedness: the stored counter never exceeds the configured maximum.
pub open spec fn wf(s: StateView) -> bool {
    counter_or_zero(s.counter_value) <= s.counter_max_value
}

/// The state of a fresh deployment: nothing stored, nothing emitted.
pub open spec fn initial_state(counter_max_value: u32) -> StateView {
    StateView {
        counter_max_value,
        counter_value: None,
        user_interactions: Map::empty(),
        events: Seq::empty(),
    }
}

/// The outcome of setting the counter: only the privileged origin may call,
/// and the new value must not exceed the configured maximum.
pub open spec fn set_counter_value_result(s: StateView, origin: Origin, new_value: u32) -> Result<
    (),
    Error,
> {
    if !(origin is Root) {
        Err(Error::Unauthorized)
    } else if new_value > s.counter_max_value {
        Err(Error::CounterValueExceedsMax)
    } else {
        Ok(())
    }
}

/// The state after setting the counter: on success the counter is
/// overwritten and one event is appended; on failure nothing changes.
/// A privileged call is not attributed to any account, so the interaction
/// map is never touched.
pub open spec fn set_counter_value_state(s: StateView, origin: Origin, new_value: u32) -> StateView {
    if set_counter_value_result(s, origin, new_value) is Ok {
        StateView {
            counter_value: Some(new_value),
            events: s.events.push(Event::CounterValueSet { counter_value: new_value }),
            ..s
        }
    } else {
        s
    }
}

/// The outcome of an increment: the caller must be a signed account, the
/// addition must fit in 32 bits, the sum must not exceed the maximum, and the
/// account's interaction count must have room for one more.
pub open spec fn increment_result(s: StateView, origin: Origin, amount: u32) -> Result<(), Error> {
    match origin {
        Origin::Signed(who) => {
            if counter_or_zero(s.counter_value) + amount > u32::MAX {
                Err(Error::CounterOverflow)
            } else if counter_or_zero(s.counter_value) + amount > s.counter_max_value {
                Err(Error::CounterValueExceedsMax)
            } else if interactions_or_zero(s.user_interactions, who) + 1 > u32::MAX {
                Err(Error::UserInteractionOverflow)
            } else {
                Ok(())
            }
        },
        _ => Err(Error::Unauthorized),
    }
}

/// The state after an increment: on success the counter grows by `amount`,
/// the caller's interaction count grows by one, and one event is appended;
/// on failure nothing changes.
pub open spec fn increment_state(s: StateView, origin: Origin, amount: u32) -> StateView {
    match origin {
        Origin::Signed(who) => {
            if increment_result(s, origin, amount) is Ok {
                StateView {
                    counter_value: Some((counter_or_zero(s.counter_value) + amount) as u32),
                    user_interactions: s.user_interactions.insert(
                        who,
                        (interactions_or_zero(s.user_interactions, who) + 1) as u32,
                    ),
                    events: s.events.push(
                        Event::CounterIncremented {
                            counter_value: (counter_or_zero(s.counter_value) + amount) as u32,
                            who,
                            incremented_amount: amount,
                        },
                    ),
                    ..s
                }
            } else {
                s
            }
        },
        _ => s,
    }
}

/// The outcome of a decrement: the caller must be a signed account, the
/// counter must be at least `amount`, and the account's interaction count
/// must have room for one more.
pub open spec fn decrement_result(s: StateView, origin: Origin, amount: u32) -> Result<(), Error> {
    match origin {
        Origin::Signed(who) => {
            if counter_or_zero(s.counter_value) < amount {
                Err(Error::CounterValueBelowZero)
            } else if interactions_or_zero(s.user_interactions, who) + 1 > u32::MAX {
                Err(Error::UserInteractionOverflow)
            } else {
                Ok(())
            }
        },
        _ => Err(Error::Unauthorized),
    }
}

/// The state after a decrement: on success the counter shrinks by `amount`,
/// the caller's interaction count grows by one, and one event is appended;
/// on failure nothing changes.
pub open spec fn decrement_state(s: StateView, origin: Origin, amount: u32) -> StateView {
    match origin {
        Origin::Signed(who) => {
            if decrement_result(s, origin, amount) is Ok {
                StateView {
                    counter_value: Some((counter_or_zero(s.counter_value) - amount) as u32),
                    user_interactions: s.user_interactions.insert(
                        who,
                        (interactions_or_zero(s.user_interactions, who) + 1) as u32,
                    ),
                    events: s.events.push(
                        Event::CounterDecremented {
                            counter_value: (counter_or_zero(s.counter_value) - amount) as u32,
                            who,
                            decremented_amount: amount,
                        },
                    ),
                    ..s
                }
            } else {
                s
            }
        },
        _ => s,
    }
}

/// The map built by inserting a sequence of entries in order, a later entry
/// overwriting an earlier one with the same key.
pub open spec fn map_of_entries(entries: Seq<(AccountId, u32)>) -> Map<AccountId, u32>
    decreases entries.len(),
{
    if entries.len() == 0 {
        Map::empty()
    } else {
        map_of_entries(entries.drop_last()).insert(entries.last().0, entries.last().1)
    }
}

} // verus!
