use vstd::prelude::*;

verus! {

/// Tempo the sequencer runs at.
pub const DEFAULT_BPM: u32 = 172;

/// Width of the grid, in keys; also the number of steps in one pattern.
pub const GRID_WIDTH: usize = 16;

/// Height of the grid, in keys.
pub const GRID_HEIGHT: usize = 8;

/// Number of keys on the grid.
pub const GRID_SIZE: usize = GRID_WIDTH * GRID_HEIGHT;

/// Number of patterns the sequence starts with.
pub const DEFAULT_NUM_PATTERNS: usize = 1;

/// Pattern shown when the sequencer starts.
pub const DEFAULT_PATTERN: usize = 0;

/// Number of steps the sequence starts with.
pub const SEQUENCE_LEN: usize = GRID_WIDTH * DEFAULT_NUM_PATTERNS;

/// LED brightness of a lit key.
pub const ON: u8 = 15;

/// LED brightness of an accented (beat) key.
pub const ACCENT: u8 = 8;

/// LED brightness of a dimmed key.
pub const OFF: u8 = 4;

/// LED brightness of a dark key.
pub const EMPTY: u8 = 0;

/// Index of key `(x, y)` in a row-major frame buffer.
pub open spec fn index_of(x: int, y: int) -> int {
    y * GRID_WIDTH as int + x
}

/// Row-major index of the key at column `x`, row `y`.
pub fn to_1d(x: usize, y: usize) -> (r: usize)
    requires
        index_of(x as int, y as int) <= usize::MAX,
    ensures
        r as int == index_of(x as int, y as int),
{
    y * GRID_WIDTH + x
}

} // verus!
