//! A bounded-counter state machine with a per-account interaction ledger.
//!
//! The machine owns one optional `u32` counter, capped by a host-supplied
//! maximum, and a map that counts how many times each signed account has
//! successfully incremented or decremented the counter. Three operations —
//! `set_counter_value`, `increment` and `decrement` — are each all-or-nothing:
//! every check passes and the state moves, or the state is left exactly as it
//! was and an error says why. Each successful operation appends one audit
//! event.
//!
//! The module [`model`] states each transition as a spec-level function over a
//! snapshot of the state; [`pallet`] implements the machine and proves it
//! equal to the model; [`laws`] proves the properties the machine promises.

pub mod laws;
pub mod model;
pub mod pallet;
