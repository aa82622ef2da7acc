//! The counter program: a per-authority counter that can be incremented,
//! decremented down to zero, and reset.

use vstd::prelude::*;

verus! {

/// The counter account's data.
pub struct Counter {
    /// The key of the account allowed to update the counter.
    pub authority: [u8; 32],
    pub count: u64,
}

impl Counter {
    /// Bytes the account occupies: discriminator, authority, count.
    pub const SPACE: usize = 48;
}

/// Errors of the counter program.
#[derive(Debug, PartialEq, Eq, Structural)]
pub enum CounterError {
    /// The counter is already 0 and cannot be decremented.
    AlreadyZero,
}

/// The counter after one increment.
pub open spec fn incremented(c: Counter) -> Counter {
    Counter { count: (c.count + 1) as u64, ..c }
}

/// The counter after one decrement, or the error that refuses it.
pub open spec fn decremented(c: Counter) -> Result<Counter, CounterError> {
    if c.count > 0 {
        Ok(Counter { count: (c.count - 1) as u64, ..c })
    } else {
        Err(CounterError::AlreadyZero)
    }
}

/// Sets up a fresh counter owned by `authority`, starting at 0.
pub fn initialize(counter: &mut Counter, authority: [u8; 32])
    ensures
        *final(counter) == (Counter { authority, count: 0 }),
{
    counter.count = 0;
    counter.authority = authority;
}

/// Adds one to the counter.
pub fn increment(counter: &mut Counter)
    requires
        old(counter).count < u64::MAX,
    ensures
        *final(counter) == incremented(*old(counter)),
{
    counter.count = counter.count + 1;
}

/// Takes one from the counter; refuses with `AlreadyZero` when it is 0,
/// leaving the counter as it was.
pub fn decrement(counter: &mut Counter) -> (r: Result<(), CounterError>)
    ensures
        match decremented(*old(counter)) {
            Ok(next) => r is Ok && *final(counter) == next,
            Err(e) => r == Err::<(), CounterError>(e) && *final(counter) == *old(counter),
        },
{
    if !(counter.count > 0) {
        return Err(CounterError::AlreadyZero);
    }
    counter.count = counter.count - 1;
    Ok(())
}

/// Sets the counter back to 0, keeping its authority.
pub fn reset(counter: &mut Counter)
    ensures
        *final(counter) == (Counter { count: 0, ..*old(counter) }),
{
    counter.count = 0;
}

/// Decrementing right after an increment gives back the counter as it was.
pub proof fn law_decrement_undoes_increment(c: Counter)
    requires
        c.count < u64::MAX,
    ensures
        decremented(incremented(c)) == Ok::<Counter, CounterError>(c),
{
}

/// A decrement is refused exactly when the count is 0, so the count never
/// goes below 0.
pub proof fn law_decrement_refused_only_at_zero(c: Counter)
    ensures
        decremented(c) is Err <==> c.count == 0,
        decremented(c) matches Ok(n) ==> n.count + 1 == c.count,
{
}

} // verus!
