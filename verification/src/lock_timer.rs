//! The pseudo-random lock timers: a seed mixed from the clock, an address
//! and a counter, reduced into the window of the lock kind.
use vstd::prelude::*;
use crate::pubkey::Pubkey;
use crate::state::Clock;

verus! {

/// The little-endian value of the first eight bytes of an address.
pub open spec fn spec_first_word_le(b: Seq<u8>) -> int {
    b[0] + 256 * (b[1] + 256 * (b[2] + 256 * (b[3] + 256 * (b[4] + 256 * (b[5] + 256 * (
    b[6] + 256 * b[7]))))))
}

/// The seed of a timer: `slot * timestamp + first_word(key) + counter`,
/// every step wrapping at 2^64, the timestamp taken as `u64` bits.
pub open spec fn spec_timer_seed(clock: Clock, key: Seq<u8>, counter: u64) -> u64 {
    clock.slot.wrapping_mul(clock.unix_timestamp as u64).wrapping_add(
        spec_first_word_le(key) as u64,
    ).wrapping_add(counter)
}

/// A duration in `[min, max)`: `min + seed % (max - min)`, or `min` when the
/// window is empty.
pub open spec fn spec_duration(seed: u64, min: i64, max: i64) -> int {
    let range: int = max - min;
    if range > 0 {
        min + (seed as int) % range
    } else {
        min as int
    }
}

/// `u64::from_le_bytes` of the first eight bytes of an address.
pub fn first_word_le(key: &Pubkey) -> (w: u64)
    ensures
        w == spec_first_word_le(key@),
{
    let b = key.to_bytes();
    let mut w: u64 = b[7] as u64;
    w = w * 256 + b[6] as u64;
    w = w * 256 + b[5] as u64;
    w = w * 256 + b[4] as u64;
    w = w * 256 + b[3] as u64;
    w = w * 256 + b[2] as u64;
    w = w * 256 + b[1] as u64;
    w = w * 256 + b[0] as u64;
    w
}

/// The seed of a timer (see `spec_timer_seed`).
pub fn timer_seed(clock: Clock, key: &Pubkey, counter: u64) -> (s: u64)
    ensures
        s == spec_timer_seed(clock, key@, counter),
{
    let stamp: u64 = clock.unix_timestamp as u64;
    clock.slot.wrapping_mul(stamp).wrapping_add(first_word_le(key)).wrapping_add(counter)
}

/// A duration drawn from `seed` in the window `[min, max)`.
pub fn duration_in_window(seed: u64, min: i64, max: i64) -> (d: i64)
    requires
        0 <= min <= max,
    ensures
        d == spec_duration(seed, min, max),
        min <= d,
        min < max ==> d < max,
{
    let range: u64 = (max - min) as u64;
    if range > 0 {
        min + (seed % range) as i64
    } else {
        min
    }
}

} // verus!
