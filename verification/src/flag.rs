//! A flag between two threads: one end writes it, the other reads it.

use std::sync::atomic::{AtomicBool, Ordering};
use std::sync::Arc;
use vstd::prelude::*;

verus! {

/// The end of a flag that puts it up and down. A flag has one such end, and the
/// end knows all that it has stored.
pub struct FlagWriter {
    bit: Arc<AtomicBool>,
    stores: Ghost<Seq<bool>>,
}

/// The end of a flag that reads it. What it finds at a given moment depends on
/// the thread that has the other end.
pub struct Flag {
    bit: Arc<AtomicBool>,
}

/// What a flag held when it was made.
pub uninterp spec fn initial_value(flag: AtomicBool) -> bool;

/// Whether, at some moment of the flag's life, some thread stores `value` in it.
pub uninterp spec fn ever_stored(flag: AtomicBool, value: bool) -> bool;

/// Whether reading the flag can give `value`: it held that at first, or it is
/// stored there at some moment.
pub open spec fn can_hold(flag: AtomicBool, value: bool) -> bool {
    value == initial_value(flag) || ever_stored(flag, value)
}

/// Calls `AtomicBool::new`. Trusted: what the flag holds at first is the
/// argument. That the flag is none of those made before is left unsaid.
#[verifier::external_body]
fn new_bit(initial: bool) -> (r: AtomicBool)
    ensures
        initial_value(r) == initial,
{
    AtomicBool::new(initial)
}

/// Calls `AtomicBool::load` with relaxed ordering. Trusted: the result is what
/// the flag was made with, or a value that is stored in it. Which of those it is
/// when there are several is left unsaid: that depends on when the other thread
/// writes.
#[verifier::external_body]
fn load_bit(bit: &AtomicBool) -> (r: bool)
    ensures
        can_hold(*bit, r),
{
    bit.load(Ordering::Relaxed)
}

/// A flag that is up or down at first: its two ends.
pub(crate) fn new_flag(initial: bool) -> (r: (FlagWriter, Flag))
    ensures
        r.0.identity() == r.1.identity(),
        initial_value(r.0.identity()) == initial,
        r.0.stores() == Seq::<bool>::empty(),
{
    let bit = Arc::new(new_bit(initial));
    let shared = Arc::clone(&bit);
    (FlagWriter { bit, stores: Ghost(Seq::empty()) }, Flag { bit: shared })
}

impl FlagWriter {
    /// Which flag this is an end of.
    pub closed spec fn identity(self) -> AtomicBool {
        *self.bit
    }

    /// All that this end has stored in the flag, first to last.
    pub closed spec fn stores(self) -> Seq<bool> {
        self.stores@
    }

    /// Calls `AtomicBool::store` with relaxed ordering. Trusted: the value is
    /// stored in the flag, once, and nothing else is; and with that ordering the
    /// call does not unwind. Which reads find the value is left unsaid: that
    /// depends on when the other thread reads.
    #[verifier::external_body]
    pub(crate) fn store(&mut self, value: bool)
        ensures
            final(self).identity() == old(self).identity(),
            final(self).stores() == old(self).stores().push(value),
            ever_stored(final(self).identity(), value),
        opens_invariants none
        no_unwind
    {
        self.bit.store(value, Ordering::Relaxed);
    }
}

impl Flag {
    /// Which flag this is an end of.
    pub closed spec fn identity(self) -> AtomicBool {
        *self.bit
    }

    /// Whether the flag is up: what it held at first, or what is stored there.
    pub fn load(&self) -> (r: bool)
        ensures
            can_hold(self.identity(), r),
            r == initial_value(self.identity()) || ever_stored(self.identity(), r),
    {
        load_bit(&self.bit)
    }
}

} // verus!
