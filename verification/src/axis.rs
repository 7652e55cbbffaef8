//! The major axis of a container, and pure projections between 2D quantities
//! and (major, minor) pairs.

use vstd::prelude::*;

use crate::constraints::BoxConstraints;
use crate::geom::{Point, Rect, Size, Vec2};

verus! {

/// An axis in visual space.
///
/// Most often used by widgets to describe
/// the direction in which they grow as their number of children increases.
/// Has some methods for manipulating geometry with respect to the axis.
#[derive(Debug, Clone, Copy, PartialEq, Eq, Structural)]
pub enum Axis {
    /// The x axis
    Horizontal,
    /// The y axis
    Vertical,
}

/// The spec-level value of [`Axis::major`].
pub open spec fn major_s(a: Axis, size: Size) -> i64 {
    match a {
        Axis::Horizontal => size.width,
        Axis::Vertical => size.height,
    }
}

/// The spec-level value of [`Axis::minor`].
pub open spec fn minor_s(a: Axis, size: Size) -> i64 {
    match a {
        Axis::Horizontal => size.height,
        Axis::Vertical => size.width,
    }
}

/// The spec-level value of [`Axis::pack`].
pub open spec fn pack_s(a: Axis, major: i64, minor: i64) -> (i64, i64) {
    match a {
        Axis::Horizontal => (major, minor),
        Axis::Vertical => (minor, major),
    }
}

/// The spec-level value of [`Axis::constraints`]: `bc` with the major-axis
/// range replaced by `[min_major, major]`.
pub open spec fn constraints_s(a: Axis, bc: BoxConstraints, min_major: i64, major: i64)
    -> BoxConstraints {
    match a {
        Axis::Horizontal => BoxConstraints {
            min: Size { width: min_major, height: bc.min.height },
            max: Size { width: major, height: bc.max.height },
        },
        Axis::Vertical => BoxConstraints {
            min: Size { width: bc.min.width, height: min_major },
            max: Size { width: bc.max.width, height: major },
        },
    }
}

impl Axis {
    /// Get the axis perpendicular to this one.
    pub fn cross(self) -> (r: Self)
        ensures
            r == (match self {
                Axis::Horizontal => Axis::Vertical,
                Axis::Vertical => Axis::Horizontal,
            }),
    {
        match self {
            Self::Horizontal => Self::Vertical,
            Self::Vertical => Self::Horizontal,
        }
    }

    /// Extract from the argument the magnitude along this axis
    pub fn major(self, size: Size) -> (r: i64)
        ensures
            r == major_s(self, size),
    {
        match self {
            Self::Horizontal => size.width,
            Self::Vertical => size.height,
        }
    }

    /// Extract from the argument the magnitude along the perpendicular axis
    pub fn minor(self, size: Size) -> (r: i64)
        ensures
            r == minor_s(self, size),
    {
        self.cross().major(size)
    }

    /// Extract the extent of the argument in this axis as a pair.
    pub fn major_span(self, rect: Rect) -> (r: (i64, i64))
        ensures
            r == (match self {
                Axis::Horizontal => (rect.x0, rect.x1),
                Axis::Vertical => (rect.y0, rect.y1),
            }),
    {
        match self {
            Self::Horizontal => (rect.x0, rect.x1),
            Self::Vertical => (rect.y0, rect.y1),
        }
    }

    /// Extract the extent of the argument in the minor axis as a pair.
    pub fn minor_span(self, rect: Rect) -> (r: (i64, i64))
        ensures
            r == (match self {
                Axis::Horizontal => (rect.y0, rect.y1),
                Axis::Vertical => (rect.x0, rect.x1),
            }),
    {
        self.cross().major_span(rect)
    }

    /// Extract the coordinate locating the argument with respect to this axis.
    pub fn major_pos(self, pos: Point) -> (r: i64)
        ensures
            r == (match self {
                Axis::Horizontal => pos.x,
                Axis::Vertical => pos.y,
            }),
    {
        match self {
            Self::Horizontal => pos.x,
            Self::Vertical => pos.y,
        }
    }

    /// Extract the coordinate locating the argument with respect to this axis.
    pub fn major_vec(self, vec: Vec2) -> (r: i64)
        ensures
            r == (match self {
                Axis::Horizontal => vec.x,
                Axis::Vertical => vec.y,
            }),
    {
        match self {
            Self::Horizontal => vec.x,
            Self::Vertical => vec.y,
        }
    }

    /// Extract the coordinate locating the argument with respect to the perpendicular axis.
    pub fn minor_pos(self, pos: Point) -> (r: i64)
        ensures
            r == (match self {
                Axis::Horizontal => pos.y,
                Axis::Vertical => pos.x,
            }),
    {
        self.cross().major_pos(pos)
    }

    /// Extract the coordinate locating the argument with respect to the perpendicular axis.
    pub fn minor_vec(self, vec: Vec2) -> (r: i64)
        ensures
            r == (match self {
                Axis::Horizontal => vec.y,
                Axis::Vertical => vec.x,
            }),
    {
        self.cross().major_vec(vec)
    }

    /// Arrange the major and minor measurements with respect to this axis such that it forms
    /// an (x, y) pair.
    pub fn pack(self, major: i64, minor: i64) -> (r: (i64, i64))
        ensures
            r == pack_s(self, major, minor),
    {
        match self {
            Self::Horizontal => (major, minor),
            Self::Vertical => (minor, major),
        }
    }

    /// Generate constraints with new values on the major axis.
    pub(crate) fn constraints(self, bc: &BoxConstraints, min_major: i64, major: i64) -> (r:
        BoxConstraints)
        ensures
            r == constraints_s(self, *bc, min_major, major),
    {
        match self {
            Self::Horizontal => BoxConstraints::new(
                Size::new(min_major, bc.min.height),
                Size::new(major, bc.max.height),
            ),
            Self::Vertical => BoxConstraints::new(
                Size::new(bc.min.width, min_major),
                Size::new(bc.max.width, major),
            ),
        }
    }
}

/// Taking the cross axis twice leads back to the same axis.
pub proof fn lemma_cross_involutive(a: Axis)
    ensures
        (match (match a {
            Axis::Horizontal => Axis::Vertical,
            Axis::Vertical => Axis::Horizontal,
        }) {
            Axis::Horizontal => Axis::Vertical,
            Axis::Vertical => Axis::Horizontal,
        }) == a,
{
}

} // verus!
