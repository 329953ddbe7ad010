//! The game state: board bounds, player cursor, and the three killers.

use vstd::prelude::*;

verus! {

/// The three killer entities. Coordinates are signed so that a killer may
/// step transiently one cell past the board while chasing the cursor.
#[derive(Clone, Copy, PartialEq, Eq, Structural, Debug)]
pub struct Killers {
    pub k1_c: i16,
    pub k1_r: i16,
    pub k2_c: i16,
    pub k2_r: i16,
    pub k3_c: i16,
    pub k3_r: i16,
}

/// The whole mutable game state: bounds `(c, r)` in columns x rows, the
/// player cursor, and the killers.
#[derive(Clone, Copy, PartialEq, Eq, Structural, Debug)]
pub struct Board {
    /// Number of rows of the board.
    pub r: u16,
    /// Number of columns of the board.
    pub c: u16,
    /// Player cursor row, clamped to `[0, r]` (the bottom clamp lets the
    /// cursor reach row `r` itself, one past the last row; the right clamp
    /// stops at `c - 1` — a deliberate asymmetry between the two axes).
    pub cursor_r: u16,
    /// Player cursor column, clamped to `[0, c - 1]`.
    pub cursor_c: u16,
    /// The three killers.
    pub killers: Killers,
}

/// Every killer stands on the board or at most one cell below it:
/// columns within `[0, c]`, rows within `[0, r + 1]`. Seeding places the
/// killers strictly inside the board; one pursuit step can push a killer
/// at most one cell past the region the cursor can occupy (columns up to
/// `c - 1`, rows up to `r`), hence these bounds.
pub open spec fn killers_in_range(k: Killers, c: u16, r: u16) -> bool {
    &&& 0 <= k.k1_c <= c
    &&& 0 <= k.k1_r <= r + 1
    &&& 0 <= k.k2_c <= c
    &&& 0 <= k.k2_r <= r + 1
    &&& 0 <= k.k3_c <= c
    &&& 0 <= k.k3_r <= r + 1
}

impl Board {
    /// Well-formedness of the game state. The bounds fit in `i16` (killer
    /// arithmetic is done in `i16`, and a killer row may reach `r + 1`),
    /// the cursor is inside its clamped region, and the killers are in range.
    pub open spec fn wf(self) -> bool {
        &&& 1 <= self.c <= 32767
        &&& 1 <= self.r <= 32766
        &&& self.cursor_c < self.c
        &&& self.cursor_r <= self.r
        &&& killers_in_range(self.killers, self.c, self.r)
    }
}

} // verus!
