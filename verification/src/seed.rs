//! Random placement of the killers: all three are re-seeded wholesale to
//! fresh positions strictly inside the board.

use vstd::prelude::*;
use rand::Rng;
use crate::board::Killers;

verus! {

/// Relies on `rand::Rng::gen_range` on the thread-local generator
/// (`rand::thread_rng`): for a non-empty half-open range it returns a value
/// uniformly drawn from `[lo, hi)`, and panics on an empty range, which the
/// precondition rules out. Nothing more can be promised of a random draw
/// than its bounds.
#[verifier::external_body]
fn rand_range(lo: u16, hi: u16) -> (v: u16)
    requires
        lo < hi,
    ensures
        lo <= v < hi,
{
    rand::thread_rng().gen_range(lo..hi)
}

/// Seed three killers at random positions, each strictly inside the board:
/// columns in `[0, c)`, rows in `[0, r)`. Every killer position within those
/// bounds may come back; nothing else is promised of a random placement.
pub fn gen_rand_killers(r: u16, c: u16) -> (killers: Killers)
    requires
        1 <= c <= 32767,
        1 <= r <= 32767,
    ensures
        0 <= killers.k1_c < c,
        0 <= killers.k1_r < r,
        0 <= killers.k2_c < c,
        0 <= killers.k2_r < r,
        0 <= killers.k3_c < c,
        0 <= killers.k3_r < r,
{
    let killers = Killers {
        k1_c: rand_range(0, c) as i16,
        k1_r: rand_range(0, r) as i16,

        k2_c: rand_range(0, c) as i16,
        k2_r: rand_range(0, r) as i16,

        k3_c: rand_range(0, c) as i16,
        k3_r: rand_range(0, r) as i16,
    };

    killers
}

} // verus!
