//! Plain integer geometry: lengths in whole logical pixels, sizes, points,
//! vectors and rectangles, and the saturating arithmetic the solver uses so
//! that every layout pass is total.

use vstd::prelude::*;

verus! {

/// Largest length, weight or gap a caller may hand to the library.
pub const LIMIT: i64 = 0x4000_0000;

/// Sentinel for an axis extent with no upper bound.
pub const UNBOUNDED: i64 = i64::MAX;

/// A length that a caller supplies directly: a whole, bounded amount of pixels.
pub open spec fn valid_len(x: i64) -> bool {
    0 <= x <= LIMIT
}

/// An upper bound of a constraint interval: a bounded length, or no bound at all.
pub open spec fn valid_max(x: i64) -> bool {
    valid_len(x) || x == UNBOUNDED
}

/// Addition that saturates at the ends of `i64` instead of overflowing.
pub open spec fn sat_add_s(a: i64, b: i64) -> i64 {
    if a + b > i64::MAX {
        i64::MAX
    } else if a + b < i64::MIN {
        i64::MIN
    } else {
        (a + b) as i64
    }
}

/// Exec mirror of [`sat_add_s`].
pub fn sat_add(a: i64, b: i64) -> (r: i64)
    ensures
        r == sat_add_s(a, b),
{
    if b >= 0 {
        if a > i64::MAX - b {
            i64::MAX
        } else {
            a + b
        }
    } else {
        if a < i64::MIN - b {
            i64::MIN
        } else {
            a + b
        }
    }
}

/// Subtraction that saturates at the ends of `i64` instead of overflowing.
pub open spec fn sat_sub_s(a: i64, b: i64) -> i64 {
    if a - b > i64::MAX {
        i64::MAX
    } else if a - b < i64::MIN {
        i64::MIN
    } else {
        (a - b) as i64
    }
}

/// Exec mirror of [`sat_sub_s`].
pub fn sat_sub(a: i64, b: i64) -> (r: i64)
    ensures
        r == sat_sub_s(a, b),
{
    if b <= 0 {
        if a > i64::MAX + b {
            i64::MAX
        } else {
            a - b
        }
    } else {
        if a < i64::MIN + b {
            i64::MIN
        } else {
            a - b
        }
    }
}

/// `a - b` floored at zero, with [`UNBOUNDED`] absorbing the subtraction:
/// taking finite room out of an unbounded extent leaves it unbounded.
pub open spec fn sub_floor_s(a: i64, b: i64) -> i64 {
    if a == UNBOUNDED {
        UNBOUNDED
    } else if a - b < 0 {
        0
    } else {
        (a - b) as i64
    }
}

/// Exec mirror of [`sub_floor_s`]; both arguments are non-negative.
pub fn sub_floor(a: i64, b: i64) -> (r: i64)
    requires
        a >= 0,
        b >= 0,
    ensures
        r == sub_floor_s(a, b),
{
    if a == UNBOUNDED {
        UNBOUNDED
    } else if a < b {
        0
    } else {
        a - b
    }
}

/// The smaller of two lengths.
pub open spec fn min_s(a: i64, b: i64) -> i64 {
    if a <= b {
        a
    } else {
        b
    }
}

/// The larger of two lengths.
pub open spec fn max_s(a: i64, b: i64) -> i64 {
    if a >= b {
        a
    } else {
        b
    }
}

/// Exec mirror of [`min_s`].
pub fn len_min(a: i64, b: i64) -> (r: i64)
    ensures
        r == min_s(a, b),
{
    if a <= b {
        a
    } else {
        b
    }
}

/// Exec mirror of [`max_s`].
pub fn len_max(a: i64, b: i64) -> (r: i64)
    ensures
        r == max_s(a, b),
{
    if a >= b {
        a
    } else {
        b
    }
}

/// `x` clamped into `[lo, hi]`; `lo` wins when the interval is empty.
pub open spec fn clamp_s(x: i64, lo: i64, hi: i64) -> i64 {
    if x < lo {
        lo
    } else if x > hi {
        hi
    } else {
        x
    }
}

/// A two-dimensional extent in whole logical pixels.
#[derive(Clone, Copy, Debug, PartialEq, Eq, Structural)]
pub struct Size {
    pub width: i64,
    pub height: i64,
}

impl Size {
    /// The empty size.
    pub fn zero() -> (r: Self)
        ensures
            r == (Size { width: 0, height: 0 }),
    {
        Size { width: 0, height: 0 }
    }

    pub fn new(width: i64, height: i64) -> (r: Self)
        ensures
            r == (Size { width, height }),
    {
        Size { width, height }
    }

    /// Both extents are non-negative.
    pub open spec fn non_negative(self) -> bool {
        self.width >= 0 && self.height >= 0
    }

    /// Both extents are caller-sized lengths.
    pub open spec fn within_limit(self) -> bool {
        valid_len(self.width) && valid_len(self.height)
    }
}

/// A position in whole logical pixels.
#[derive(Clone, Copy, Debug, PartialEq, Eq, Structural)]
pub struct Point {
    pub x: i64,
    pub y: i64,
}

impl Point {
    pub fn new(x: i64, y: i64) -> (r: Self)
        ensures
            r == (Point { x, y }),
    {
        Point { x, y }
    }
}

/// A displacement in whole logical pixels.
#[derive(Clone, Copy, Debug, PartialEq, Eq, Structural)]
pub struct Vec2 {
    pub x: i64,
    pub y: i64,
}

/// An axis-aligned rectangle, as its two corner coordinates.
#[derive(Clone, Copy, Debug, PartialEq, Eq, Structural)]
pub struct Rect {
    pub x0: i64,
    pub y0: i64,
    pub x1: i64,
    pub y1: i64,
}

impl Rect {
    /// The spec-level value of [`Rect::from_origin_size`].
    pub open spec fn from_origin_size_spec(origin: Point, size: Size) -> Rect {
        Rect {
            x0: origin.x,
            y0: origin.y,
            x1: sat_add_s(origin.x, size.width),
            y1: sat_add_s(origin.y, size.height),
        }
    }

    /// The rectangle covered by an origin and a size, corners saturating.
    pub fn from_origin_size(origin: Point, size: Size) -> (r: Rect)
        ensures
            r == Rect::from_origin_size_spec(origin, size),
    {
        Rect {
            x0: origin.x,
            y0: origin.y,
            x1: sat_add(origin.x, size.width),
            y1: sat_add(origin.y, size.height),
        }
    }
}

} // verus!
