//! The properties the counter state machine promises, proved once and for
//! all over the spec transitions of [`crate::model`]. Each lemma quantifies
//! over every snapshot, so it holds of any [`crate::pallet::Pallet`], whose
//! operations are proved equal to these transitions.

use crate::model::{
    counter_or_zero, decrement_result, decrement_state, increment_result, increment_state,
    initial_state, interactions_or_zero, set_counter_value_result, set_counter_value_state, wf,
    AccountId, Error, Origin, StateView,
};
use vstd::prelude::*;

verus! {

/// Setting a value within the configured bound from the privileged origin
/// succeeds and stores exactly that value, so a subsequent read returns it;
/// setting a value above the bound fails with `CounterValueExceedsMax` and
/// leaves the state — the stored value included — unchanged.
pub proof fn lemma_set_counter_value_exact(s: StateView, new_value: u32)
    ensures
        new_value <= s.counter_max_value ==> set_counter_value_result(s, Origin::Root, new_value)
            == Ok::<(), Error>(()),
        new_value <= s.counter_max_value ==> set_counter_value_state(
            s,
            Origin::Root,
            new_value,
        ).counter_value == Some(new_value),
        new_value > s.counter_max_value ==> set_counter_value_result(s, Origin::Root, new_value)
            == Err::<(), Error>(Error::CounterValueExceedsMax),
        new_value > s.counter_max_value ==> set_counter_value_state(s, Origin::Root, new_value)
            == s,
{
}

/// An increment by a signed account succeeds whenever the new total stays
/// within the configured bound and the account's interaction count has room
/// for one more: the counter becomes `current + amount`, the caller's
/// interaction count grows by exactly one, and no other account's count
/// changes.
pub proof fn lemma_increment_succeeds(s: StateView, who: AccountId, amount: u32)
    requires
        counter_or_zero(s.counter_value) + amount <= s.counter_max_value,
        interactions_or_zero(s.user_interactions, who) < u32::MAX,
    ensures
        increment_result(s, Origin::Signed(who), amount) == Ok::<(), Error>(()),
        counter_or_zero(increment_state(s, Origin::Signed(who), amount).counter_value)
            == counter_or_zero(s.counter_value) + amount,
        interactions_or_zero(
            increment_state(s, Origin::Signed(who), amount).user_interactions,
            who,
        ) == interactions_or_zero(s.user_interactions, who) + 1,
        forall|other: AccountId|
            other != who ==> #[trigger] interactions_or_zero(
                increment_state(s, Origin::Signed(who), amount).user_interactions,
                other,
            ) == interactions_or_zero(s.user_interactions, other),
{
}

/// A decrement by a signed account succeeds whenever the counter holds at
/// least `amount` and the account's interaction count has room for one more:
/// the counter becomes `current - amount`, the caller's interaction count
/// grows by exactly one, and no other account's count changes.
pub proof fn lemma_decrement_succeeds(s: StateView, who: AccountId, amount: u32)
    requires
        amount <= counter_or_zero(s.counter_value),
        interactions_or_zero(s.user_interactions, who) < u32::MAX,
    ensures
        decrement_result(s, Origin::Signed(who), amount) == Ok::<(), Error>(()),
        counter_or_zero(decrement_state(s, Origin::Signed(who), amount).counter_value)
            == counter_or_zero(s.counter_value) - amount,
        interactions_or_zero(
            decrement_state(s, Origin::Signed(who), amount).user_interactions,
            who,
        ) == interactions_or_zero(s.user_interactions, who) + 1,
        forall|other: AccountId|
            other != who ==> #[trigger] interactions_or_zero(
                decrement_state(s, Origin::Signed(who), amount).user_interactions,
                other,
            ) == interactions_or_zero(s.user_interactions, other),
{
}

/// A decrement larger than the current counter fails with
/// `CounterValueBelowZero` and changes nothing: neither the counter nor any
/// account's interaction count.
pub proof fn lemma_decrement_below_zero(s: StateView, who: AccountId, amount: u32)
    requires
        amount > counter_or_zero(s.counter_value),
    ensures
        decrement_result(s, Origin::Signed(who), amount) == Err::<(), Error>(
            Error::CounterValueBelowZero,
        ),
        decrement_state(s, Origin::Signed(who), amount) == s,
{
}

/// The privileged operation fails with `Unauthorized` from any origin that is
/// not the privileged one, and the signed-only operations fail with
/// `Unauthorized` from any origin that is not a signed account — whatever the
/// argument, and always without changing the state.
pub proof fn lemma_unauthorized(s: StateView, origin: Origin, amount: u32)
    ensures
        !(origin is Root) ==> set_counter_value_result(s, origin, amount) == Err::<(), Error>(
            Error::Unauthorized,
        ),
        !(origin is Root) ==> set_counter_value_state(s, origin, amount) == s,
        !(origin is Signed) ==> increment_result(s, origin, amount) == Err::<(), Error>(
            Error::Unauthorized,
        ),
        !(origin is Signed) ==> increment_state(s, origin, amount) == s,
        !(origin is Signed) ==> decrement_result(s, origin, amount) == Err::<(), Error>(
            Error::Unauthorized,
        ),
        !(origin is Signed) ==> decrement_state(s, origin, amount) == s,
{
}

/// Failure is idempotent: a failed call leaves the state exactly as it was,
/// so repeating it under that unchanged state fails with the same error and
/// leaves the state unchanged again.
pub proof fn lemma_failure_idempotent(s: StateView, origin: Origin, amount: u32)
    ensures
        set_counter_value_result(s, origin, amount) is Err ==> set_counter_value_state(
            s,
            origin,
            amount,
        ) == s,
        set_counter_value_result(s, origin, amount) is Err ==> set_counter_value_result(
            set_counter_value_state(s, origin, amount),
            origin,
            amount,
        ) == set_counter_value_result(s, origin, amount),
        increment_result(s, origin, amount) is Err ==> increment_state(s, origin, amount) == s,
        increment_result(s, origin, amount) is Err ==> increment_result(
            increment_state(s, origin, amount),
            origin,
            amount,
        ) == increment_result(s, origin, amount),
        decrement_result(s, origin, amount) is Err ==> decrement_state(s, origin, amount) == s,
        decrement_result(s, origin, amount) is Err ==> decrement_result(
            decrement_state(s, origin, amount),
            origin,
            amount,
        ) == decrement_result(s, origin, amount),
{
}

/// A fresh deployment is well formed, and every operation preserves
/// well-formedness: the stored counter never exceeds the configured maximum,
/// whoever calls and with whatever argument.
pub proof fn lemma_operations_preserve_wf(s: StateView, origin: Origin, amount: u32)
    requires
        wf(s),
    ensures
        wf(initial_state(s.counter_max_value)),
        wf(set_counter_value_state(s, origin, amount)),
        wf(increment_state(s, origin, amount)),
        wf(decrement_state(s, origin, amount)),
{
}

} // verus!
