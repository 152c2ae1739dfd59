use vstd::prelude::*;

verus! {

/// Relies on `rand::random`: a value drawn from the thread-local generator.
/// Nothing is promised of the value itself.
pub assume_specification<T>[ rand::random::<T> ]() -> (r: T)
    where
        rand::distributions::Standard: rand::distributions::Distribution<T>,
;

/// Number of values in the closed range `[start, end]`.
pub open spec fn span(start: i64, end: i64) -> int {
    end - start + 1
}

/// A closed range whose size fits in an `i64`.
pub open spec fn valid_range(start: i64, end: i64) -> bool {
    start <= end && span(start, end) <= i64::MAX
}

/// The value that a 32-bit draw selects in `[start, end]`.
pub open spec fn picked(start: i64, end: i64, draw: u32) -> int {
    start + (draw as int) % span(start, end)
}

/// Maps a 32-bit draw into `[start, end]` by reduction modulo the range size.
pub fn pick_in_range(start: i64, end: i64, draw: u32) -> (r: i64)
    requires
        valid_range(start, end),
    ensures
        r == picked(start, end, draw),
        start <= r <= end,
{
    let size: i64 = end - start + 1;
    let offset: i64 = (draw as i64) % size;
    start + offset
}

/// Draws a value in `[start, end]` from the thread-local generator.
pub fn rand_i64(start: i64, end: i64) -> (r: i64)
    requires
        valid_range(start, end),
    ensures
        start <= r <= end,
        exists|d: u32| r == picked(start, end, d),
{
    let draw: u32 = rand::random::<u32>();
    pick_in_range(start, end, draw)
}

} // verus!
