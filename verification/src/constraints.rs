//! The box-constraint envelope handed down a layout: minimum and maximum
//! sizes, with [`UNBOUNDED`] standing for an axis without an upper bound.

use vstd::prelude::*;

use crate::geom::{
    clamp_s, min_s, sub_floor, sub_floor_s, valid_len, valid_max, Size, LIMIT, UNBOUNDED,
};

verus! {

/// Constraints for layout: a child must come out no smaller than `min` and no
/// larger than `max` on each axis.
#[derive(Clone, Copy, Debug, PartialEq, Eq, Structural)]
pub struct BoxConstraints {
    pub min: Size,
    pub max: Size,
}

impl BoxConstraints {
    /// A well-formed envelope: finite minimums within [`LIMIT`], maximums
    /// within [`LIMIT`] or [`UNBOUNDED`], minimum at most maximum.
    pub open spec fn wf(self) -> bool {
        &&& self.min.within_limit()
        &&& valid_max(self.max.width)
        &&& valid_max(self.max.height)
        &&& self.min.width <= self.max.width
        &&& self.min.height <= self.max.height
    }

    /// The spec-level value of [`Self::constrain`]: `size` clamped into the
    /// envelope, the minimum winning over the maximum.
    pub open spec fn constrain_s(self, size: Size) -> Size {
        Size {
            width: clamp_s(size.width, self.min.width, self.max.width),
            height: clamp_s(size.height, self.min.height, self.max.height),
        }
    }

    /// The spec-level value of [`Self::shrink`].
    pub open spec fn shrink_s(self, diff_width: i64, diff_height: i64) -> BoxConstraints {
        let max = Size {
            width: sub_floor_s(self.max.width, diff_width),
            height: sub_floor_s(self.max.height, diff_height),
        };
        BoxConstraints {
            min: Size {
                width: min_s(self.min.width, max.width),
                height: min_s(self.min.height, max.height),
            },
            max,
        }
    }

    pub fn new(min: Size, max: Size) -> (r: Self)
        ensures
            r == (BoxConstraints { min, max }),
    {
        BoxConstraints { min, max }
    }

    /// An envelope that admits exactly one size.
    pub fn tight(size: Size) -> (r: Self)
        ensures
            r == (BoxConstraints { min: size, max: size }),
    {
        BoxConstraints { min: size, max: size }
    }

    /// The same upper bounds with the minimums dropped to zero.
    pub fn loosen(&self) -> (r: Self)
        ensures
            r.min == (Size { width: 0, height: 0 }),
            r.max == self.max,
            self.wf() ==> r.wf(),
    {
        BoxConstraints { min: Size { width: 0, height: 0 }, max: self.max }
    }

    /// The envelope left after taking an inset out of each axis.
    pub fn shrink(&self, diff_width: i64, diff_height: i64) -> (r: Self)
        requires
            0 <= diff_width <= LIMIT,
            0 <= diff_height <= LIMIT,
            self.wf(),
        ensures
            r == self.shrink_s(diff_width, diff_height),
            r.wf(),
    {
        let max_w: i64 = sub_floor(self.max.width, diff_width);
        let max_h: i64 = sub_floor(self.max.height, diff_height);
        let min_w: i64 = if self.min.width <= max_w {
            self.min.width
        } else {
            max_w
        };
        let min_h: i64 = if self.min.height <= max_h {
            self.min.height
        } else {
            max_h
        };
        BoxConstraints {
            min: Size { width: min_w, height: min_h },
            max: Size { width: max_w, height: max_h },
        }
    }

    /// `size` clamped into the envelope.
    pub fn constrain(&self, size: Size) -> (r: Size)
        ensures
            r == self.constrain_s(size),
    {
        let width: i64 = if size.width < self.min.width {
            self.min.width
        } else if size.width > self.max.width {
            self.max.width
        } else {
            size.width
        };
        let height: i64 = if size.height < self.min.height {
            self.min.height
        } else if size.height > self.max.height {
            self.max.height
        } else {
            size.height
        };
        Size { width, height }
    }

    pub fn min(&self) -> (r: Size)
        ensures
            r == self.min,
    {
        self.min
    }

    pub fn max(&self) -> (r: Size)
        ensures
            r == self.max,
    {
        self.max
    }

    /// Whether the width has a finite upper bound.
    pub fn is_width_bounded(&self) -> (r: bool)
        ensures
            r == (self.max.width != UNBOUNDED),
    {
        self.max.width != UNBOUNDED
    }

    /// Whether the height has a finite upper bound.
    pub fn is_height_bounded(&self) -> (r: bool)
        ensures
            r == (self.max.height != UNBOUNDED),
    {
        self.max.height != UNBOUNDED
    }
}

} // verus!
