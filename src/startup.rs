use vstd::prelude::*;

verus! {

/// After a failed attempt to reach the store with `attempts_left` retries
/// remaining: `Some(n)` to wait and try again with `n` retries left, `None` to
/// give up.
pub fn next_connect_attempt(attempts_left: u8) -> (r: Option<u8>)
    ensures
        r is None <==> attempts_left == 0,
        r matches Some(n) ==> n == attempts_left - 1,
{
    if attempts_left == 0 {
        None
    } else {
        Some(attempts_left - 1)
    }
}

} // verus!
