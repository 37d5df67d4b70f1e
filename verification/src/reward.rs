//! The reward calculator: elapsed time times a fixed rate.

use crate::error::MyError;
use vstd::prelude::*;

verus! {

/// Reward units paid per unit of elapsed time.
pub const REWARD_RATE: u64 = 10;

/// The reward for the time between `created_at` and `now` at `rate`:
/// their difference times the rate, where the difference is not negative
/// and the product fits in 64 bits.
pub open spec fn reward_spec(created_at: i64, now: i64, rate: u64) -> Option<u64> {
    if now - created_at < 0 || (now - created_at) * rate > u64::MAX {
        None
    } else {
        Some(((now - created_at) * rate) as u64)
    }
}

/// Computes the reward for the time between `created_at` and `now`.
/// Fails with `ArithmeticOverflow`, never wraps, where the time runs
/// backwards or the product does not fit in 64 bits. It has no effect:
/// it is the payout that a caller has to guard.
pub fn reward(created_at: i64, now: i64, rate: u64) -> (r: Result<u64, MyError>)
    ensures
        match r {
            Ok(amount) => reward_spec(created_at, now, rate) == Some(amount),
            Err(e) => e == MyError::ArithmeticOverflow && reward_spec(created_at, now, rate) is None,
        },
{
    if now < created_at {
        return Err(MyError::ArithmeticOverflow);
    }
    let elapsed: u64 = (now as i128 - created_at as i128) as u64;
    match elapsed.checked_mul(rate) {
        Some(amount) => Ok(amount),
        None => Err(MyError::ArithmeticOverflow),
    }
}

} // verus!
