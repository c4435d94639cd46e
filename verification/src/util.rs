//! Keeping the clock's tick in step with the wall clock's seconds.

use vstd::prelude::*;

verus! {

/// How long to wait, in milliseconds, for the next full second, given the
/// milliseconds since the epoch. On a full second that is a whole second.
pub fn millis_until_next_second(millis: u128) -> (wait: u64)
    ensures
        wait == 1000 - millis % 1000,
        1 <= wait <= 1000,
{
    (1000 - (millis % 1000)) as u64
}

} // verus!
