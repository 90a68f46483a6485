//! The frames that a component shows while its work is in flight.

use vstd::prelude::*;

verus! {

/// Number of frames in the loading sequence.
pub const FRAME_COUNT: usize = 10;

/// The loading sequence, in the order in which it is shown.
pub open spec fn loading_frames() -> Seq<char> {
    seq!['⠋', '⠙', '⠹', '⠸', '⠼', '⠴', '⠦', '⠧', '⠇', '⠏']
}

/// The frame at `index`, counted round the sequence.
pub fn loading_frame(index: usize) -> (frame: char)
    ensures
        frame == loading_frames()[index as int % 10],
{
    match index % FRAME_COUNT {
        0 => '⠋',
        1 => '⠙',
        2 => '⠹',
        3 => '⠸',
        4 => '⠼',
        5 => '⠴',
        6 => '⠦',
        7 => '⠧',
        8 => '⠇',
        _ => '⠏',
    }
}

/// The index of the frame that follows the one at `index`.
pub fn next_frame_index(index: usize) -> (next: usize)
    ensures
        next == (index as int % 10 + 1) % 10,
        next < FRAME_COUNT,
{
    (index % FRAME_COUNT + 1) % FRAME_COUNT
}

} // verus!
