//! Rectangles in terminal cell coordinates: hit-testing for the hit-point
//! controls and the arithmetic behind the centered modal overlays.

use vstd::prelude::*;
use vstd::arithmetic::mul::lemma_mul_inequality;
use vstd::arithmetic::div_mod::{lemma_div_is_ordered, lemma_div_multiples_vanish};

verus! {

/// Scaling a nonnegative length by at most 100 percent (with the rounding
/// that integer division gives) never exceeds the length itself.
proof fn lemma_percent_of_le(w: int, p: int)
    requires
        0 <= w,
        0 <= p <= 100,
    ensures
        w * p <= w * 100,
        w * p / 100 <= w,
{
    lemma_mul_inequality(p, 100, w);
    lemma_div_is_ordered(w * p, w * 100, 100);
    lemma_div_multiples_vanish(w, 100);
    assert(w * 100 == 100 * w);
}

/// A rectangle of terminal cells, given by its top-left corner and its size.
#[derive(Clone, Copy, Debug, PartialEq, Eq, Structural)]
pub struct Rect {
    pub x: u16,
    pub y: u16,
    pub width: u16,
    pub height: u16,
}

impl Rect {
    /// A point `(x, y)` lies inside a rectangle `r` iff
    /// `x` is in `[r.x, r.x + r.width)` and `y` is in `[r.y, r.y + r.height)`.
    pub open spec fn spec_contains(self, x: u16, y: u16) -> bool {
        &&& self.x <= x < self.x + self.width
        &&& self.y <= y < self.y + self.height
    }

    /// Hit test for mouse clicks against a control's last-rendered rectangle.
    pub fn contains(&self, x: u16, y: u16) -> (r: bool)
        ensures
            r == self.spec_contains(x, y),
    {
        self.x <= x && (x as u32) < self.x as u32 + self.width as u32 && self.y <= y
            && (y as u32) < self.y as u32 + self.height as u32
    }
}

/// The rectangle `centered_rect` returns: `percent_x` percent of the width
/// and `percent_y` percent of the height of `r` (rounded down), placed so
/// that the leftover space is split evenly on both sides.
pub open spec fn spec_centered_rect(percent_x: u16, percent_y: u16, r: Rect) -> Rect {
    let w = (r.width * percent_x / 100) as u16;
    let h = (r.height * percent_y / 100) as u16;
    Rect {
        x: (r.x + (r.width - w) / 2) as u16,
        y: (r.y + (r.height - h) / 2) as u16,
        width: w,
        height: h,
    }
}

/// Computes the centered sub-rectangle used for the modal overlays
/// (the exit prompt and the key/value editing boxes).
pub fn centered_rect(percent_x: u16, percent_y: u16, r: Rect) -> (res: Rect)
    requires
        percent_x <= 100,
        percent_y <= 100,
        r.x + r.width <= u16::MAX,
        r.y + r.height <= u16::MAX,
    ensures
        res == spec_centered_rect(percent_x, percent_y, r),
{
    proof {
        lemma_percent_of_le(r.width as int, percent_x as int);
        lemma_percent_of_le(r.height as int, percent_y as int);
    }
    let w = ((r.width as u32 * percent_x as u32) / 100) as u16;
    let h = ((r.height as u32 * percent_y as u32) / 100) as u16;
    Rect { x: r.x + (r.width - w) / 2, y: r.y + (r.height - h) / 2, width: w, height: h }
}

} // verus!
