//! The executable counter state machine.
//!
//! A [`Pallet`] holds the configuration, the counter, the per-account
//! interaction map and the emitted events. Each operation's contract says
//! that its result and the state it leaves behind are exactly those of the
//! corresponding spec functions in [`crate::model`]. Every check runs before
//! any write, so a failing call leaves the state untouched — the
//! all-or-nothing behaviour the operations promise.

use crate::model::{
    decrement_result, decrement_state, increment_result, increment_state, initial_state,
    map_of_entries, set_counter_value_result, set_counter_value_state, AccountId, Error, Event,
    Origin, StateView, Weight,
};
use std::collections::HashMap;
use vstd::prelude::*;

verus! {

broadcast use vstd::std_specs::hash::group_hash_axioms;

/// Host-supplied configuration, fixed for the life of the deployment.
#[derive(Clone, Copy, Debug, PartialEq, Eq, Structural)]
pub struct Config {
    /// The largest value the counter may ever hold.
    pub counter_max_value: u32,
}

/// The cost the host charges for each operation. The host implements this;
/// the costs have no effect on what the operations do.
pub trait WeightInfo {
    /// The cost of a `set_counter_value` call.
    fn set_counter_value() -> Weight;

    /// The cost of an `increment` call.
    fn increment() -> Weight;

    /// The cost of a `decrement` call.
    fn decrement() -> Weight;
}

/// The counter state machine: one bounded counter and one per-account
/// interaction ledger, changed only by the three operations below.
pub struct Pallet {
    counter_max_value: u32,
    counter_value: Option<u32>,
    user_interactions: HashMap<AccountId, u32>,
    events: Vec<Event>,
}

impl View for Pallet {
    type V = StateView;

    closed spec fn view(&self) -> StateView {
        StateView {
            counter_max_value: self.counter_max_value,
            counter_value: self.counter_value,
            user_interactions: self.user_interactions@,
            events: self.events@,
        }
    }
}

impl Pallet {
    /// A fresh deployment: the counter is absent, no account has interacted,
    /// and no event has been emitted.
    pub fn new(config: Config) -> (p: Pallet)
        ensures
            p@ == initial_state(config.counter_max_value),
    {
        Pallet {
            counter_max_value: config.counter_max_value,
            counter_value: None,
            user_interactions: HashMap::new(),
            events: Vec::new(),
        }
    }

    /// The configured upper bound on the counter.
    pub fn counter_max_value(&self) -> (r: u32)
        ensures
            r == self@.counter_max_value,
    {
        self.counter_max_value
    }

    /// The stored counter value, or `None` if it was never set.
    pub fn counter_value(&self) -> (r: Option<u32>)
        ensures
            r == self@.counter_value,
    {
        self.counter_value
    }

    /// How many times `who` has successfully incremented or decremented the
    /// counter, or `None` if that account never has.
    pub fn user_interactions(&self, who: AccountId) -> (r: Option<u32>)
        ensures
            self@.user_interactions.contains_key(who) ==> r == Some(
                self@.user_interactions[who],
            ),
            !self@.user_interactions.contains_key(who) ==> r is None,
    {
        match self.user_interactions.get(&who) {
            Some(count) => Some(*count),
            None => None,
        }
    }

    /// The audit events emitted so far, oldest first.
    pub fn events(&self) -> (r: &Vec<Event>)
        ensures
            r@ == self@.events,
    {
        &self.events
    }

    /// Set the counter to `new_value`.
    ///
    /// Only the privileged origin may call this, and `new_value` must not
    /// exceed the configured maximum; otherwise the state is unchanged and
    /// the error says which check failed. On success the counter is
    /// overwritten and a `CounterValueSet` event is appended; the interaction
    /// map is never touched, since a privileged call is not attributed to an
    /// account.
    pub fn set_counter_value(&mut self, origin: Origin, new_value: u32) -> (r: Result<(), Error>)
        ensures
            r == set_counter_value_result(old(self)@, origin, new_value),
            final(self)@ == set_counter_value_state(old(self)@, origin, new_value),
    {
        match origin {
            Origin::Root => {},
            _ => {
                return Err(Error::Unauthorized);
            },
        }
        if new_value > self.counter_max_value {
            return Err(Error::CounterValueExceedsMax);
        }
        self.counter_value = Some(new_value);
        self.events.push(Event::CounterValueSet { counter_value: new_value });
        Ok(())
    }

    /// Add `amount` to the counter on behalf of the signed account `origin`.
    ///
    /// The caller must be a signed account, the addition must fit in 32 bits,
    /// the sum must not exceed the configured maximum, and the account's
    /// interaction count must have room for one more; otherwise the state is
    /// unchanged and the error says which check failed first. On success the
    /// counter grows by `amount`, the account's interaction count grows by
    /// one, and a `CounterIncremented` event is appended.
    pub fn increment(&mut self, origin: Origin, amount_to_increment: u32) -> (r: Result<(), Error>)
        ensures
            r == increment_result(old(self)@, origin, amount_to_increment),
            final(self)@ == increment_state(old(self)@, origin, amount_to_increment),
    {
        let who: AccountId = match origin {
            Origin::Signed(account) => account,
            _ => {
                return Err(Error::Unauthorized);
            },
        };
        let current_value: u32 = match self.counter_value {
            Some(v) => v,
            None => 0,
        };
        let new_value: u32 = match current_value.checked_add(amount_to_increment) {
            Some(v) => v,
            None => {
                return Err(Error::CounterOverflow);
            },
        };
        if new_value > self.counter_max_value {
            return Err(Error::CounterValueExceedsMax);
        }
        let interactions: u32 = match self.user_interactions.get(&who) {
            Some(count) => *count,
            None => 0,
        };
        let new_interactions: u32 = match interactions.checked_add(1) {
            Some(v) => v,
            None => {
                return Err(Error::UserInteractionOverflow);
            },
        };
        self.counter_value = Some(new_value);
        self.user_interactions.insert(who, new_interactions);
        self.events.push(
            Event::CounterIncremented {
                counter_value: new_value,
                who,
                incremented_amount: amount_to_increment,
            },
        );
        Ok(())
    }

    /// Subtract `amount` from the counter on behalf of the signed account
    /// `origin`.
    ///
    /// The caller must be a signed account, the counter must be at least
    /// `amount`, and the account's interaction count must have room for one
    /// more; otherwise the state is unchanged and the error says which check
    /// failed first. On success the counter shrinks by `amount`, the
    /// account's interaction count grows by one, and a `CounterDecremented`
    /// event is appended.
    pub fn decrement(&mut self, origin: Origin, amount_to_decrement: u32) -> (r: Result<(), Error>)
        ensures
            r == decrement_result(old(self)@, origin, amount_to_decrement),
            final(self)@ == decrement_state(old(self)@, origin, amount_to_decrement),
    {
        let who: AccountId = match origin {
            Origin::Signed(account) => account,
            _ => {
                return Err(Error::Unauthorized);
            },
        };
        let current_value: u32 = match self.counter_value {
            Some(v) => v,
            None => 0,
        };
        let new_value: u32 = match current_value.checked_sub(amount_to_decrement) {
            Some(v) => v,
            None => {
                return Err(Error::CounterValueBelowZero);
            },
        };
        let interactions: u32 = match self.user_interactions.get(&who) {
            Some(count) => *count,
            None => 0,
        };
        let new_interactions: u32 = match interactions.checked_add(1) {
            Some(v) => v,
            None => {
                return Err(Error::UserInteractionOverflow);
            },
        };
        self.counter_value = Some(new_value);
        self.user_interactions.insert(who, new_interactions);
        self.events.push(
            Event::CounterDecremented {
                counter_value: new_value,
                who,
                decremented_amount: amount_to_decrement,
            },
        );
        Ok(())
    }

    /// Rebuild the machine from state the host has kept: the configuration,
    /// the stored counter (if any) and the interaction entries, inserted in
    /// order with a later entry overwriting an earlier one with the same key.
    /// The event log starts empty: events belong to the host's sink, not to
    /// the durable state.
    pub fn restore(
        config: Config,
        counter_value: Option<u32>,
        interactions: &Vec<(AccountId, u32)>,
    ) -> (p: Pallet)
        ensures
            p@.counter_max_value == config.counter_max_value,
            p@.counter_value == counter_value,
            p@.user_interactions == map_of_entries(interactions@),
            p@.events == Seq::<Event>::empty(),
    {
        let mut user_interactions: HashMap<AccountId, u32> = HashMap::new();
        let n: usize = interactions.len();
        let mut i: usize = 0;
        while i < n
            invariant
                n == interactions@.len(),
                i <= n,
                user_interactions@ == map_of_entries(interactions@.take(i as int)),
            decreases n - i,
        {
            let entry: (AccountId, u32) = interactions[i];
            user_interactions.insert(entry.0, entry.1);
            proof {
                assert(interactions@.take(i as int + 1).drop_last() =~= interactions@.take(
                    i as int,
                ));
            }
            i = i + 1;
        }
        proof {
            assert(interactions@.take(n as int) =~= interactions@);
        }
        Pallet {
            counter_max_value: config.counter_max_value,
            counter_value,
            user_interactions,
            events: Vec::new(),
        }
    }
}

} // verus!
