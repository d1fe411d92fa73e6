//! A counter that is moved up and down in steps of one.

use vstd::prelude::*;

verus! {

/// A counter that never leaves the range of `u64`.
#[derive(Clone, Copy, Debug, PartialEq, Eq)]
pub struct Counter {
    pub count: u64,
}

/// Why a change of a counter was refused.
#[derive(Clone, Copy, Debug, PartialEq, Eq, Structural)]
pub enum ErrorCode {
    /// The counter is zero and cannot go down.
    CounterUnderflow,
    /// The counter is at its greatest value and cannot go up.
    CounterOverflow,
}

/// Starts `counter` at zero.
pub fn initialize(counter: &mut Counter) -> (res: Result<(), ErrorCode>)
    ensures
        res is Ok,
        final(counter).count == 0,
{
    counter.count = 0;
    Ok(())
}

/// Adds one to `counter`.
///
/// Fails with `CounterOverflow`, leaving the counter as it is, if it holds
/// the greatest value already.
pub fn increment(counter: &mut Counter) -> (res: Result<(), ErrorCode>)
    ensures
        old(counter).count < u64::MAX ==> res is Ok && final(counter).count == old(counter).count
            + 1,
        old(counter).count == u64::MAX ==> res == Err::<(), ErrorCode>(ErrorCode::CounterOverflow)
            && final(counter).count == old(counter).count,
{
    if counter.count == u64::MAX {
        return Err(ErrorCode::CounterOverflow);
    }
    counter.count += 1;
    Ok(())
}

/// Takes one from `counter`.
///
/// Fails with `CounterUnderflow`, leaving the counter as it is, if it holds
/// zero.
pub fn decrement(counter: &mut Counter) -> (res: Result<(), ErrorCode>)
    ensures
        old(counter).count > 0 ==> res is Ok && final(counter).count == old(counter).count - 1,
        old(counter).count == 0 ==> res == Err::<(), ErrorCode>(ErrorCode::CounterUnderflow)
            && final(counter).count == 0,
{
    if counter.count == 0 {
        return Err(ErrorCode::CounterUnderflow);
    }
    counter.count -= 1;
    Ok(())
}

/// The value of `counter`.
pub fn get_count(counter: &Counter) -> (res: Result<u64, ErrorCode>)
    ensures
        res == Ok::<u64, ErrorCode>(counter.count),
{
    Ok(counter.count)
}

/// Sets `counter` back to zero.
pub fn reset(counter: &mut Counter) -> (res: Result<(), ErrorCode>)
    ensures
        res is Ok,
        final(counter).count == 0,
{
    counter.count = 0;
    Ok(())
}

} // verus!
