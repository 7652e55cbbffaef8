//! The child model: a container's children are fixed elements, weighted
//! flexible elements, and fixed or weighted spacers.

use vstd::prelude::*;

use crate::alignment::CrossAxisAlignment;
use crate::element::Element;
use crate::geom::LIMIT;

verus! {

/// One entry of a container's child sequence.
#[derive(Clone, Copy, Debug)]
pub enum Child {
    /// An element measured at its own size.
    Fixed { widget: Element, alignment: Option<CrossAxisAlignment> },
    /// An element given a weighted share of the leftover major-axis space.
    Flex { widget: Element, alignment: Option<CrossAxisAlignment>, flex: i64 },
    /// Empty space of a fixed length; the second field is the length the last
    /// layout pass resolved, a pass-scoped scratch value.
    FixedSpacer(i64, i64),
    /// Empty space with a weighted share of the leftover major-axis space;
    /// the second field is the same scratch value.
    FlexedSpacer(i64, i64),
}

impl Child {
    /// Elements are well-formed, weights are caller-sized, and a flexible
    /// element's weight is strictly positive.
    pub open spec fn wf(self) -> bool {
        match self {
            Child::Fixed { widget, .. } => widget.wf(),
            Child::Flex { widget, flex, .. } => widget.wf() && 0 < flex <= LIMIT,
            Child::FixedSpacer(len, _) => -LIMIT <= len <= LIMIT,
            Child::FlexedSpacer(flex, _) => 0 <= flex <= LIMIT,
        }
    }

    /// The element inside, if this child is one.
    pub fn widget(&self) -> (r: Option<&Element>)
        ensures
            match *self {
                Child::Fixed { widget, .. } | Child::Flex { widget, .. } => r == Some(&widget),
                _ => r is None,
            },
    {
        match self {
            Self::Fixed { widget, .. } | Self::Flex { widget, .. } => Some(widget),
            _ => None,
        }
    }
}

/// Optional parameters for an item in a flex container (row or column).
///
/// When you would like to add a flexible child to a container, pass the child
/// together with its flex factor.
#[derive(Debug, Copy, Clone, PartialEq)]
pub struct FlexParams {
    pub flex: Option<i64>,
    pub alignment: Option<CrossAxisAlignment>,
}

impl FlexParams {
    /// A stored weight is between zero and [`LIMIT`].
    pub open spec fn wf(self) -> bool {
        match self.flex {
            Some(f) => 0 <= f <= LIMIT,
            None => true,
        }
    }

    /// Create custom `FlexParams` with a specific flex factor and an optional
    /// [`CrossAxisAlignment`].
    ///
    /// By default, the widget uses the alignment of its parent container.
    /// A non-positive flex factor is stored as zero; one above [`LIMIT`] is
    /// stored as [`LIMIT`].
    pub fn new(flex: Option<i64>, alignment: Option<CrossAxisAlignment>) -> (r: Self)
        ensures
            r.alignment == alignment,
            r.flex == (match flex {
                Some(f) => if f <= 0 {
                    Some(0i64)
                } else if f > LIMIT {
                    Some(LIMIT)
                } else {
                    Some(f)
                },
                None => None::<i64>,
            }),
            r.wf(),
    {
        let flex = match flex {
            Some(f) => if f <= 0 {
                Some(0)
            } else if f > LIMIT {
                Some(LIMIT)
            } else {
                Some(f)
            },
            None => None,
        };
        FlexParams { flex, alignment }
    }
}

impl Default for FlexParams {
    /// No flex factor and no alignment override.
    fn default() -> (r: Self)
        ensures
            r == (FlexParams { flex: None::<i64>, alignment: None::<CrossAxisAlignment> }),
    {
        FlexParams { flex: None, alignment: None }
    }
}

impl From<i64> for FlexParams {
    /// A bare weight: flexible with that factor, no alignment override.
    fn from(flex: i64) -> (r: Self) {
        FlexParams::new(Some(flex), None)
    }
}

impl vstd::std_specs::convert::FromSpecImpl<i64> for FlexParams {
    open spec fn obeys_from_spec() -> bool {
        true
    }

    open spec fn from_spec(flex: i64) -> Self {
        FlexParams {
            flex: Some(
                if flex <= 0 {
                    0i64
                } else if flex > LIMIT {
                    LIMIT
                } else {
                    flex
                },
            ),
            alignment: None,
        }
    }
}

impl From<CrossAxisAlignment> for FlexParams {
    /// A bare alignment override: a fixed child aligned that way.
    fn from(alignment: CrossAxisAlignment) -> (r: Self) {
        FlexParams::new(None, Some(alignment))
    }
}

impl vstd::std_specs::convert::FromSpecImpl<CrossAxisAlignment> for FlexParams {
    open spec fn obeys_from_spec() -> bool {
        true
    }

    open spec fn from_spec(alignment: CrossAxisAlignment) -> Self {
        FlexParams { flex: None, alignment: Some(alignment) }
    }
}

/// The spec-level value of [`new_flex_child`].
pub open spec fn new_flex_child_spec(params: FlexParams, widget: Element) -> Child {
    match params.flex {
        Some(flex) => if flex > 0 {
            Child::Flex { widget, alignment: params.alignment, flex }
        } else {
            Child::Fixed { widget, alignment: params.alignment }
        },
        None => Child::Fixed { widget, alignment: params.alignment },
    }
}

/// Build the child entry for an element and its parameters: flexible when a
/// positive weight is given, fixed otherwise (a zero weight falls back to
/// fixed behaviour, the degenerate-weight policy of this library).
pub fn new_flex_child(params: FlexParams, widget: Element) -> (r: Child)
    ensures
        r == new_flex_child_spec(params, widget),
        params.wf() && widget.wf() ==> r.wf(),
{
    match params.flex {
        Some(flex) => if flex > 0 {
            Child::Flex { widget, alignment: params.alignment, flex }
        } else {
            Child::Fixed { widget, alignment: params.alignment }
        },
        None => Child::Fixed { widget, alignment: params.alignment },
    }
}

} // verus!
