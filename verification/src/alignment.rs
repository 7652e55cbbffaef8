//! Alignment policies for the two axes of a flex container.

use vstd::prelude::*;

use crate::rounding::round_away_s;

verus! {

/// The alignment of the widgets on the container's cross (or minor) axis.
///
/// If a widget is smaller than the container on the minor axis, this determines
/// where it is positioned.
#[derive(Debug, Clone, Copy, PartialEq, Eq, Structural)]
pub enum CrossAxisAlignment {
    /// Top or left.
    Start,
    /// Widgets are centered in the container.
    Center,
    /// Bottom or right.
    End,
    /// Align on the baseline.
    Baseline,
    /// Fill the available space.
    Fill,
}

/// Arrangement of children on the main axis.
///
/// If there is surplus space on the main axis after laying out children, this
/// enum represents how children are laid out in this space.
#[derive(Debug, Clone, Copy, PartialEq, Eq, Structural)]
pub enum MainAxisAlignment {
    /// Top or left.
    Start,
    /// Children are centered, without padding.
    Center,
    /// Bottom or right.
    End,
    /// Extra space is divided evenly between each child.
    SpaceBetween,
    /// Extra space is divided evenly between each child, as well as at the ends.
    SpaceEvenly,
    /// Space between each child, with less at the start and end.
    SpaceAround,
}

/// The minor-axis offset an alignment gives a child, as a function of the
/// slack `val` between container and child on that axis.
pub open spec fn align_s(a: CrossAxisAlignment, val: i64) -> i64 {
    match a {
        CrossAxisAlignment::Start => 0,
        // in vertical layout, baseline is equivalent to center
        CrossAxisAlignment::Center | CrossAxisAlignment::Baseline => round_away_s(
            val as int,
            2,
        ) as i64,
        CrossAxisAlignment::End => val,
        CrossAxisAlignment::Fill => 0,
    }
}

impl CrossAxisAlignment {
    /// Given the difference between the size of the container and the size
    /// of the child (on their minor axis) return the necessary offset for
    /// this alignment.
    pub fn align(self, val: i64) -> (r: i64)
        requires
            val > i64::MIN,
        ensures
            r == align_s(self, val),
    {
        match self {
            Self::Start => 0,
            Self::Center | Self::Baseline => {
                // round the half away from zero: up for positive, down for negative
                if val >= 0 {
                    let u: u64 = val as u64;
                    let h: u64 = u / 2 + u % 2;
                    proof {
                        assert(h == round_away_s(val as int, 2)) by (nonlinear_arith)
                            requires
                                val >= 0,
                                u == val,
                                h == u / 2 + u % 2,
                        ;
                    }
                    h as i64
                } else {
                    let u: u64 = (-val) as u64;
                    let h: u64 = u / 2 + u % 2;
                    proof {
                        assert(-(h as int) == round_away_s(val as int, 2)) by (nonlinear_arith)
                            requires
                                val < 0,
                                val > i64::MIN,
                                u == -val,
                                h == u / 2 + u % 2,
                        ;
                    }
                    -(h as i64)
                }
            },
            Self::End => val,
            Self::Fill => 0,
        }
    }
}

} // verus!
