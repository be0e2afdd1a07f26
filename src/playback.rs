//! Pacing of free-running playback.
use vstd::prelude::*;

verus! {

/// Number of entries in the frame-rate table.
pub const RATE_COUNT: usize = 13;

/// Index of the rate a session starts with (15 frames per second).
pub const DEFAULT_RATE: usize = 5;

/// The selectable target rates in tenths of a frame per second, ascending;
/// the last entry stands for "as fast as possible".
pub open spec fn rate_table() -> Seq<u32> {
    seq![5, 10, 20, 50, 100, 150, 200, 300, 450, 600, 900, 1200, 9990]
}

/// The rate at index `i` of the table, in tenths of a frame per second.
pub fn rate_tenths(i: usize) -> (r: u32)
    requires
        i < RATE_COUNT,
    ensures
        r == rate_table()[i as int],
        r >= 5,
{
    let table: [u32; 13] = [5, 10, 20, 50, 100, 150, 200, 300, 450, 600, 900, 1200, 9990];
    assert(table@ =~= rate_table());
    table[i]
}

/// The target length of one frame at table index `i`, in microseconds.
pub open spec fn frame_micros_spec(i: int) -> int {
    10_000_000int / (rate_table()[i] as int)
}

pub fn frame_micros(i: usize) -> (r: u64)
    requires
        i < RATE_COUNT,
    ensures
        r == frame_micros_spec(i as int),
{
    let t = rate_tenths(i);
    10_000_000u64 / (t as u64)
}

/// How long to wait for input after a frame that took `elapsed_us` when a
/// frame should take `frame_us`: the rest of the frame, or nothing once the
/// frame is over.
pub fn remaining_wait(frame_us: u64, elapsed_us: u64) -> (r: u64)
    ensures
        r == (if elapsed_us < frame_us { frame_us - elapsed_us } else { 0 }),
{
    if elapsed_us < frame_us {
        frame_us - elapsed_us
    } else {
        0
    }
}

} // verus!
