//! The target's on-screen position and the margin that keeps it visible.

use vstd::prelude::*;
use vstd::string::StringExecFns;

use crate::text::dec_digits;

verus! {

/// Minimum distance, in viewport percent, that the target keeps from every
/// edge of the viewport.
pub const MARGIN: u8 = 10;

/// Largest coordinate a target may take, in viewport percent.
pub const MAX_COORD: u8 = 100 - MARGIN;

/// What `clamp` returns: `val` pushed into the closed interval `[min, max]`.
pub open spec fn clamp_spec(val: u8, min: u8, max: u8) -> u8 {
    if val < min {
        min
    } else if val > max {
        max
    } else {
        val
    }
}

/// Restrict `val` to the closed interval `[min, max]`.
pub fn clamp(val: u8, min: u8, max: u8) -> (r: u8)
    ensures
        r == clamp_spec(val, min, max),
        min <= max ==> min <= r && r <= max,
{
    if val < min {
        min
    } else if val > max {
        max
    } else {
        val
    }
}

/// A target position: percentage offsets from the viewport's top-left corner
/// (`x` horizontal, `y` vertical). Replaced wholesale on every relocation,
/// never mutated in place.
#[derive(Clone, Copy, Debug, PartialEq, Eq, Structural)]
pub struct Pos {
    pub x: u8,
    pub y: u8,
}

impl Pos {
    /// Both coordinates lie in `[MARGIN, 100 - MARGIN]`, so the target never
    /// touches a viewport edge.
    pub open spec fn wf(self) -> bool {
        &&& MARGIN <= self.x <= MAX_COORD
        &&& MARGIN <= self.y <= MAX_COORD
    }

    /// What `new` returns for a pair of raw percentage samples.
    pub open spec fn new_spec(raw_x: u8, raw_y: u8) -> Pos {
        Pos {
            x: clamp_spec(raw_x, MARGIN, MAX_COORD),
            y: clamp_spec(raw_y, MARGIN, MAX_COORD),
        }
    }

    /// Build a position from two raw percentage samples (each the floor of a
    /// uniform draw from `[0, 1)` scaled by 100), clamping both coordinates
    /// away from the viewport edges.
    pub fn new(raw_x: u8, raw_y: u8) -> (r: Pos)
        ensures
            r == Pos::new_spec(raw_x, raw_y),
            r.wf(),
    {
        let x = clamp(raw_x, MARGIN, MAX_COORD);
        let y = clamp(raw_y, MARGIN, MAX_COORD);
        Pos { x, y }
    }

    /// The inline CSS that places the target: the vertical offset first,
    /// then the horizontal one, both in viewport units.
    pub fn to_style(&self) -> (r: String)
        requires
            self.x <= 100 && self.y <= 100,
        ensures
            r@ == style_spec(self.x as int, self.y as int),
    {
        let mut s = String::from_str("top:");
        crate::text::push_decimal(self.y as u64, &mut s);
        s.append("vh;left:");
        crate::text::push_decimal(self.x as u64, &mut s);
        s.append("vw");
        proof {
            assert(s@ =~= style_spec(self.x as int, self.y as int));
        }
        s
    }
}

/// The style text for a position: `top:<y>vh;left:<x>vw`.
pub open spec fn style_spec(x: int, y: int) -> Seq<char> {
    "top:"@ + dec_digits(y) + "vh;left:"@ + dec_digits(x) + "vw"@
}

} // verus!
