//! The flex container and its two-pass solver: measure fixed children, share
//! the leftover major-axis space among flexible children by weight, then
//! place every child with its alignment.

use vstd::prelude::*;

use crate::alignment::{align_s, CrossAxisAlignment, MainAxisAlignment};
use crate::axis::{constraints_s, major_s, minor_s, pack_s, Axis};
use crate::child::{new_flex_child, new_flex_child_spec, Child, FlexParams};
use crate::constraints::BoxConstraints;
use crate::element::Element;
use crate::geom::{
    len_max, len_min, max_s, min_s, sat_add, sat_add_s, sat_sub, sat_sub_s, sub_floor,
    sub_floor_s, Point, Size, LIMIT, UNBOUNDED,
};
use crate::rounding::{lemma_round_lower, lemma_round_near, round_away, round_away_s};
use crate::spacing::{spacing_value, Spacing};

verus! {

/// Largest border width or padding component a container accepts.
pub const INSET_LIMIT: i64 = 0x0800_0000;

/// The default gap between the children of a vertical container.
pub const DEFAULT_GAP_VERTICAL: i64 = 10;

/// The default gap between the children of a horizontal container.
pub const DEFAULT_GAP_HORIZONTAL: i64 = 8;

/// The size in logical pixels of the default spacer for an axis.
pub fn axis_default_spacer(axis: Axis) -> (r: i64)
    ensures
        r == axis_default_spacer_spec(axis),
{
    match axis {
        Axis::Vertical => DEFAULT_GAP_VERTICAL,
        Axis::Horizontal => DEFAULT_GAP_HORIZONTAL,
    }
}

/// The spec-level value of [`axis_default_spacer`].
pub open spec fn axis_default_spacer_spec(axis: Axis) -> i64 {
    match axis {
        Axis::Vertical => DEFAULT_GAP_VERTICAL,
        Axis::Horizontal => DEFAULT_GAP_HORIZONTAL,
    }
}

/// Padding insets around the container's content.
#[derive(Clone, Copy, Debug, PartialEq, Eq, Structural)]
pub struct Padding {
    pub left: i64,
    pub right: i64,
    pub top: i64,
    pub bottom: i64,
}

impl Padding {
    /// Every inset is non-negative and caller-sized.
    pub open spec fn wf(self) -> bool {
        &&& 0 <= self.left <= INSET_LIMIT
        &&& 0 <= self.right <= INSET_LIMIT
        &&& 0 <= self.top <= INSET_LIMIT
        &&& 0 <= self.bottom <= INSET_LIMIT
    }

    /// No padding.
    pub fn zero() -> (r: Self)
        ensures
            r == (Padding { left: 0, right: 0, top: 0, bottom: 0 }),
    {
        Padding { left: 0, right: 0, top: 0, bottom: 0 }
    }
}

/// A container with either horizontal or vertical layout.
///
/// This widget is the foundation of most layouts, and is highly configurable.
pub struct Flex {
    pub direction: Axis,
    pub cross_alignment: CrossAxisAlignment,
    pub main_alignment: MainAxisAlignment,
    pub fill_major_axis: bool,
    pub children: Vec<Child>,
    pub old_bc: BoxConstraints,
    pub gap: Option<i64>,
    pub needs_layout: bool,
    pub border: i64,
    pub padding: Padding,
}

impl Flex {
    /// Every child is well-formed, and every stored amount is caller-sized.
    pub open spec fn wf(self) -> bool {
        &&& self.children@.len() <= LIMIT
        &&& forall|i: int| 0 <= i < self.children@.len() ==> self.children@[i].wf()
        &&& match self.gap {
            Some(g) => 0 <= g <= LIMIT,
            None => true,
        }
        &&& self.old_bc.wf()
        &&& 0 <= self.border <= INSET_LIMIT
        &&& self.padding.wf()
    }

    /// A container fresh from [`Flex::for_axis`]: empty, dirty, with the
    /// default alignments and no explicit gap.
    pub open spec fn is_fresh(self, axis: Axis) -> bool {
        &&& self.direction == axis
        &&& self.children@.len() == 0
        &&& self.cross_alignment == CrossAxisAlignment::Center
        &&& self.main_alignment == MainAxisAlignment::Start
        &&& !self.fill_major_axis
        &&& self.old_bc == (BoxConstraints {
            min: Size { width: 0, height: 0 },
            max: Size { width: 0, height: 0 },
        })
        &&& self.gap is None
        &&& self.needs_layout
        &&& self.border == 0
        &&& self.padding == (Padding { left: 0, right: 0, top: 0, bottom: 0 })
    }

    /// Create a new `Flex` oriented along the provided axis.
    pub fn for_axis(axis: Axis) -> (r: Self)
        ensures
            r.is_fresh(axis),
            r.wf(),
    {
        Flex {
            direction: axis,
            children: Vec::new(),
            cross_alignment: CrossAxisAlignment::Center,
            main_alignment: MainAxisAlignment::Start,
            fill_major_axis: false,
            old_bc: BoxConstraints::tight(Size::zero()),
            gap: None,
            needs_layout: true,
            border: 0,
            padding: Padding::zero(),
        }
    }

    /// Create a new horizontal stack.
    ///
    /// The child widgets are laid out horizontally, from left to right.
    pub fn row() -> (r: Self)
        ensures
            r.is_fresh(Axis::Horizontal),
            r.wf(),
    {
        Self::for_axis(Axis::Horizontal)
    }

    /// Create a new vertical stack.
    ///
    /// The child widgets are laid out vertically, from top to bottom.
    pub fn column() -> (r: Self)
        ensures
            r.is_fresh(Axis::Vertical),
            r.wf(),
    {
        Self::for_axis(Axis::Vertical)
    }

    /// Builder-style method for specifying the childrens' [`CrossAxisAlignment`].
    pub fn cross_axis_alignment(self, alignment: CrossAxisAlignment) -> (r: Self)
        ensures
            r == (Flex { cross_alignment: alignment, ..self }),
    {
        Flex { cross_alignment: alignment, ..self }
    }

    /// Builder-style method for specifying the childrens' [`MainAxisAlignment`].
    pub fn main_axis_alignment(self, alignment: MainAxisAlignment) -> (r: Self)
        ensures
            r == (Flex { main_alignment: alignment, ..self }),
    {
        Flex { main_alignment: alignment, ..self }
    }

    /// Builder-style method for setting whether the container must expand
    /// to fill the available space on its main axis.
    pub fn must_fill_main_axis(self, fill: bool) -> (r: Self)
        ensures
            r == (Flex { fill_major_axis: fill, ..self }),
    {
        Flex { fill_major_axis: fill, ..self }
    }

    /// Builder-style method for setting the spacing along the
    /// major axis between any two elements in logical pixels.
    ///
    /// This gap is also present between spacers.
    /// A negative or oversized gap is a caller error, excluded by contract.
    ///
    /// See also [`default_gap`](Self::default_gap).
    pub fn gap(self, gap: i64) -> (r: Self)
        requires
            0 <= gap <= LIMIT,
        ensures
            r == (Flex { gap: Some(gap), ..self }),
    {
        Flex { gap: Some(gap), ..self }
    }

    /// Builder-style method to use the default gap value:
    /// [`DEFAULT_GAP_VERTICAL`] for a flex column and
    /// [`DEFAULT_GAP_HORIZONTAL`] for a flex row.
    ///
    /// See also [`gap`](Self::gap).
    pub fn default_gap(self) -> (r: Self)
        ensures
            r == (Flex { gap: None::<i64>, ..self }),
    {
        Flex { gap: None, ..self }
    }

    /// Equivalent to [`gap`](Self::gap) if `gap` is `Some`, or
    /// [`default_gap`](Self::default_gap) otherwise.
    pub fn raw_gap(self, gap: Option<i64>) -> (r: Self)
        requires
            match gap {
                Some(g) => 0 <= g <= LIMIT,
                None => true,
            },
        ensures
            r == (Flex { gap, ..self }),
    {
        Flex { gap, ..self }
    }

    /// Builder-style variant of [`Flex::add_child`].
    ///
    /// Convenient for assembling a group of widgets in a single expression.
    pub fn with_child(self, child: Element) -> (r: Self)
        requires
            child.wf(),
            self.children@.len() < LIMIT,
        ensures
            r.children@ == self.children@.push(
                Child::Fixed { widget: child, alignment: None::<CrossAxisAlignment> },
            ),
            r == (Flex { children: r.children, ..self }),
            self.wf() ==> r.wf(),
    {
        let mut this = self;
        this.children.push(Child::Fixed { widget: child, alignment: None });
        this
    }

    /// Builder-style variant of [`Flex::add_child`] that assigns the child an identity.
    ///
    /// Useful for unit tests.
    pub fn with_child_id(self, child: Element, id: u64) -> (r: Self)
        requires
            child.wf(),
            self.children@.len() < LIMIT,
        ensures
            r.children@ == self.children@.push(
                Child::Fixed {
                    widget: Element { id, ..child },
                    alignment: None::<CrossAxisAlignment>,
                },
            ),
            r == (Flex { children: r.children, ..self }),
            self.wf() ==> r.wf(),
    {
        let mut this = self;
        this.children.push(Child::Fixed { widget: Element { id, ..child }, alignment: None });
        this
    }

    /// Builder-style method to add a flexible child to the container.
    pub fn with_flex_child(self, child: Element, params: FlexParams) -> (r: Self)
        requires
            child.wf(),
            params.wf(),
            self.children@.len() < LIMIT,
        ensures
            r.children@ == self.children@.push(new_flex_child_spec(params, child)),
            r == (Flex { children: r.children, ..self }),
            self.wf() ==> r.wf(),
    {
        let mut this = self;
        let entry = new_flex_child(params, child);
        this.children.push(entry);
        this
    }

    /// Builder-style method to add a spacer widget with a standard size.
    ///
    /// The actual value of this spacer depends on whether this container is
    /// a row or column.
    pub fn with_default_spacer(self) -> (r: Self)
        requires
            self.children@.len() < LIMIT,
        ensures
            r.children@ == self.children@.push(
                Child::FixedSpacer(axis_default_spacer_spec(self.direction), 0i64),
            ),
            r == (Flex { children: r.children, ..self }),
            self.wf() ==> r.wf(),
    {
        let key = axis_default_spacer(self.direction);
        self.with_spacer(key)
    }

    /// Builder-style method for adding a fixed-size spacer to the container.
    ///
    /// A negative length is clamped to zero.
    ///
    /// If you are laying out standard controls in this container, you should
    /// generally prefer to use [`add_default_spacer`](Self::add_default_spacer).
    pub fn with_spacer(self, len: i64) -> (r: Self)
        requires
            -LIMIT <= len <= LIMIT,
            self.children@.len() < LIMIT,
        ensures
            r.children@ == self.children@.push(
                Child::FixedSpacer(
                    if len < 0 {
                        0i64
                    } else {
                        len
                    },
                    0i64,
                ),
            ),
            r == (Flex { children: r.children, ..self }),
            self.wf() ==> r.wf(),
    {
        let clamped: i64 = if len < 0 {
            0
        } else {
            len
        };
        let mut this = self;
        this.children.push(Child::FixedSpacer(clamped, 0));
        this
    }

    /// Builder-style method for adding a weighted spacer to the container.
    ///
    /// A negative weight is clamped to zero.
    pub fn with_flex_spacer(self, flex: i64) -> (r: Self)
        requires
            -LIMIT <= flex <= LIMIT,
            self.children@.len() < LIMIT,
        ensures
            r.children@ == self.children@.push(
                Child::FlexedSpacer(
                    if flex < 0 {
                        0i64
                    } else {
                        flex
                    },
                    0i64,
                ),
            ),
            r == (Flex { children: r.children, ..self }),
            self.wf() ==> r.wf(),
    {
        let clamped: i64 = if flex < 0 {
            0
        } else {
            flex
        };
        let mut this = self;
        this.children.push(Child::FlexedSpacer(clamped, 0));
        this
    }

    /// Returns the number of children (widgets and spacers) this flex container has.
    pub fn len(&self) -> (r: usize)
        ensures
            r == self.children@.len(),
    {
        self.children.len()
    }

    /// Returns `true` if this flex container has no children (widgets or spacers).
    pub fn is_empty(&self) -> (r: bool)
        ensures
            r == (self.children@.len() == 0),
    {
        self.children.len() == 0
    }
}

impl Flex {
    /// Set the flex direction (see [`Axis`]) and mark the container dirty.
    pub fn set_direction(&mut self, direction: Axis)
        ensures
            *final(self) == (Flex { direction, needs_layout: true, ..*old(self) }),
    {
        self.direction = direction;
        self.needs_layout = true;
    }

    /// Set the childrens' [`CrossAxisAlignment`] and mark the container dirty.
    pub fn set_cross_axis_alignment(&mut self, alignment: CrossAxisAlignment)
        ensures
            *final(self) == (Flex {
                cross_alignment: alignment,
                needs_layout: true,
                ..*old(self)
            }),
    {
        self.cross_alignment = alignment;
        self.needs_layout = true;
    }

    /// Set the childrens' [`MainAxisAlignment`] and mark the container dirty.
    pub fn set_main_axis_alignment(&mut self, alignment: MainAxisAlignment)
        ensures
            *final(self) == (Flex { main_alignment: alignment, needs_layout: true, ..*old(self) }),
    {
        self.main_alignment = alignment;
        self.needs_layout = true;
    }

    /// Set whether the container must expand to fill the available space on
    /// its main axis, and mark the container dirty.
    pub fn set_must_fill_main_axis(&mut self, fill: bool)
        ensures
            *final(self) == (Flex { fill_major_axis: fill, needs_layout: true, ..*old(self) }),
    {
        self.fill_major_axis = fill;
        self.needs_layout = true;
    }

    /// Set the spacing along the major axis between any two elements in
    /// logical pixels, and mark the container dirty.
    ///
    /// This gap is also present between spacers.
    /// A negative or oversized gap is a caller error, excluded by contract.
    ///
    /// See also [`use_default_gap`](Self::use_default_gap).
    pub fn set_gap(&mut self, gap: i64)
        requires
            0 <= gap <= LIMIT,
        ensures
            *final(self) == (Flex { gap: Some(gap), needs_layout: true, ..*old(self) }),
    {
        self.gap = Some(gap);
        self.needs_layout = true;
    }

    /// Use the default gap value: [`DEFAULT_GAP_VERTICAL`] for a flex column
    /// and [`DEFAULT_GAP_HORIZONTAL`] for a flex row.
    ///
    /// See also [`set_gap`](Self::set_gap).
    pub fn use_default_gap(&mut self)
        ensures
            *final(self) == (Flex { gap: None::<i64>, needs_layout: true, ..*old(self) }),
    {
        self.gap = None;
        self.needs_layout = true;
    }

    /// Equivalent to [`set_gap`](Self::set_gap) if `gap` is `Some`, or
    /// [`use_default_gap`](Self::use_default_gap) otherwise.
    pub fn set_raw_gap(&mut self, gap: Option<i64>)
        requires
            match gap {
                Some(g) => 0 <= g <= LIMIT,
                None => true,
            },
        ensures
            *final(self) == (Flex { gap, needs_layout: true, ..*old(self) }),
    {
        self.gap = gap;
        self.needs_layout = true;
    }

    /// Set the container's uniform border width and mark it dirty.
    pub fn set_border_width(&mut self, width: i64)
        requires
            0 <= width <= INSET_LIMIT,
        ensures
            *final(self) == (Flex { border: width, needs_layout: true, ..*old(self) }),
    {
        self.border = width;
        self.needs_layout = true;
    }

    /// Set the container's padding and mark it dirty.
    pub fn set_padding(&mut self, padding: Padding)
        requires
            padding.wf(),
        ensures
            *final(self) == (Flex { padding, needs_layout: true, ..*old(self) }),
    {
        self.padding = padding;
        self.needs_layout = true;
    }

    /// Add a non-flex child widget.
    ///
    /// See also [`with_child`](Flex::with_child).
    pub fn add_child(&mut self, child: Element)
        requires
            child.wf(),
            old(self).children@.len() < LIMIT,
        ensures
            final(self).children@ == old(self).children@.push(
                Child::Fixed { widget: child, alignment: None::<CrossAxisAlignment> },
            ),
            *final(self) == (Flex {
                children: final(self).children,
                needs_layout: true,
                ..*old(self)
            }),
            old(self).wf() ==> final(self).wf(),
    {
        self.children.push(Child::Fixed { widget: child, alignment: None });
        self.needs_layout = true;
    }

    /// Add a non-flex child widget with a pre-assigned identity.
    ///
    /// See also [`with_child_id`](Flex::with_child_id).
    pub fn add_child_id(&mut self, child: Element, id: u64)
        requires
            child.wf(),
            old(self).children@.len() < LIMIT,
        ensures
            final(self).children@ == old(self).children@.push(
                Child::Fixed {
                    widget: Element { id, ..child },
                    alignment: None::<CrossAxisAlignment>,
                },
            ),
            *final(self) == (Flex {
                children: final(self).children,
                needs_layout: true,
                ..*old(self)
            }),
            old(self).wf() ==> final(self).wf(),
    {
        self.children.push(Child::Fixed { widget: Element { id, ..child }, alignment: None });
        self.needs_layout = true;
    }

    /// Add a flexible child widget.
    pub fn add_flex_child(&mut self, child: Element, params: FlexParams)
        requires
            child.wf(),
            params.wf(),
            old(self).children@.len() < LIMIT,
        ensures
            final(self).children@ == old(self).children@.push(new_flex_child_spec(params, child)),
            *final(self) == (Flex {
                children: final(self).children,
                needs_layout: true,
                ..*old(self)
            }),
            old(self).wf() ==> final(self).wf(),
    {
        let entry = new_flex_child(params, child);
        self.children.push(entry);
        self.needs_layout = true;
    }

    /// Add a spacer widget with a standard size.
    ///
    /// The actual value of this spacer depends on whether this container is
    /// a row or column.
    pub fn add_default_spacer(&mut self)
        requires
            old(self).children@.len() < LIMIT,
        ensures
            final(self).children@ == old(self).children@.push(
                Child::FixedSpacer(axis_default_spacer_spec(old(self).direction), 0i64),
            ),
            *final(self) == (Flex {
                children: final(self).children,
                needs_layout: true,
                ..*old(self)
            }),
            old(self).wf() ==> final(self).wf(),
    {
        let key = axis_default_spacer(self.direction);
        self.add_spacer(key);
    }

    /// Add an empty spacer widget with the given size.
    ///
    /// A negative length is clamped to zero.
    ///
    /// If you are laying out standard controls in this container, you should
    /// generally prefer to use [`add_default_spacer`](Self::add_default_spacer).
    pub fn add_spacer(&mut self, len: i64)
        requires
            -LIMIT <= len <= LIMIT,
            old(self).children@.len() < LIMIT,
        ensures
            final(self).children@ == old(self).children@.push(
                Child::FixedSpacer(
                    if len < 0 {
                        0i64
                    } else {
                        len
                    },
                    0i64,
                ),
            ),
            *final(self) == (Flex {
                children: final(self).children,
                needs_layout: true,
                ..*old(self)
            }),
            old(self).wf() ==> final(self).wf(),
    {
        let clamped: i64 = if len < 0 {
            0
        } else {
            len
        };
        self.children.push(Child::FixedSpacer(clamped, 0));
        self.needs_layout = true;
    }

    /// Add an empty spacer widget with a specific flex factor.
    ///
    /// A negative weight is clamped to zero.
    pub fn add_flex_spacer(&mut self, flex: i64)
        requires
            -LIMIT <= flex <= LIMIT,
            old(self).children@.len() < LIMIT,
        ensures
            final(self).children@ == old(self).children@.push(
                Child::FlexedSpacer(
                    if flex < 0 {
                        0i64
                    } else {
                        flex
                    },
                    0i64,
                ),
            ),
            *final(self) == (Flex {
                children: final(self).children,
                needs_layout: true,
                ..*old(self)
            }),
            old(self).wf() ==> final(self).wf(),
    {
        let clamped: i64 = if flex < 0 {
            0
        } else {
            flex
        };
        self.children.push(Child::FlexedSpacer(clamped, 0));
        self.needs_layout = true;
    }

    /// Insert a non-flex child widget at the given index.
    ///
    /// An index beyond the number of children is a caller error, excluded by
    /// contract.
    pub fn insert_child(&mut self, idx: usize, child: Element)
        requires
            child.wf(),
            idx <= old(self).children@.len(),
            old(self).children@.len() < LIMIT,
        ensures
            final(self).children@ == old(self).children@.insert(
                idx as int,
                Child::Fixed { widget: child, alignment: None::<CrossAxisAlignment> },
            ),
            *final(self) == (Flex {
                children: final(self).children,
                needs_layout: true,
                ..*old(self)
            }),
            old(self).wf() ==> final(self).wf(),
    {
        self.children.insert(idx, Child::Fixed { widget: child, alignment: None });
        self.needs_layout = true;
    }

    /// Insert a flex child widget at the given index.
    ///
    /// An index beyond the number of children is a caller error, excluded by
    /// contract.
    pub fn insert_flex_child(&mut self, idx: usize, child: Element, params: FlexParams)
        requires
            child.wf(),
            params.wf(),
            idx <= old(self).children@.len(),
            old(self).children@.len() < LIMIT,
        ensures
            final(self).children@ == old(self).children@.insert(
                idx as int,
                new_flex_child_spec(params, child),
            ),
            *final(self) == (Flex {
                children: final(self).children,
                needs_layout: true,
                ..*old(self)
            }),
            old(self).wf() ==> final(self).wf(),
    {
        let entry = new_flex_child(params, child);
        self.children.insert(idx, entry);
        self.needs_layout = true;
    }

    /// Insert a spacer widget with a standard size at the given index.
    ///
    /// An index beyond the number of children is a caller error, excluded by
    /// contract.
    pub fn insert_default_spacer(&mut self, idx: usize)
        requires
            idx <= old(self).children@.len(),
            old(self).children@.len() < LIMIT,
        ensures
            final(self).children@ == old(self).children@.insert(
                idx as int,
                Child::FixedSpacer(axis_default_spacer_spec(old(self).direction), 0i64),
            ),
            *final(self) == (Flex {
                children: final(self).children,
                needs_layout: true,
                ..*old(self)
            }),
            old(self).wf() ==> final(self).wf(),
    {
        let key = axis_default_spacer(self.direction);
        self.insert_spacer(idx, key);
    }

    /// Insert an empty spacer widget with the given size at the given index.
    ///
    /// A negative length is clamped to zero.  An index beyond the number of
    /// children is a caller error, excluded by contract.
    pub fn insert_spacer(&mut self, idx: usize, len: i64)
        requires
            -LIMIT <= len <= LIMIT,
            idx <= old(self).children@.len(),
            old(self).children@.len() < LIMIT,
        ensures
            final(self).children@ == old(self).children@.insert(
                idx as int,
                Child::FixedSpacer(
                    if len < 0 {
                        0i64
                    } else {
                        len
                    },
                    0i64,
                ),
            ),
            *final(self) == (Flex {
                children: final(self).children,
                needs_layout: true,
                ..*old(self)
            }),
            old(self).wf() ==> final(self).wf(),
    {
        let clamped: i64 = if len < 0 {
            0
        } else {
            len
        };
        self.children.insert(idx, Child::FixedSpacer(clamped, 0));
        self.needs_layout = true;
    }

    /// Insert an empty spacer widget with a specific flex factor at the given
    /// index.
    ///
    /// A negative weight is clamped to zero.  An index beyond the number of
    /// children is a caller error, excluded by contract.
    pub fn insert_flex_spacer(&mut self, idx: usize, flex: i64)
        requires
            -LIMIT <= flex <= LIMIT,
            idx <= old(self).children@.len(),
            old(self).children@.len() < LIMIT,
        ensures
            final(self).children@ == old(self).children@.insert(
                idx as int,
                Child::FlexedSpacer(
                    if flex < 0 {
                        0i64
                    } else {
                        flex
                    },
                    0i64,
                ),
            ),
            *final(self) == (Flex {
                children: final(self).children,
                needs_layout: true,
                ..*old(self)
            }),
            old(self).wf() ==> final(self).wf(),
    {
        let clamped: i64 = if flex < 0 {
            0
        } else {
            flex
        };
        self.children.insert(idx, Child::FlexedSpacer(clamped, 0));
        self.needs_layout = true;
    }

    /// Remove and return the child at `idx`.
    ///
    /// This child can be a widget or a spacer.  An index at or beyond the
    /// number of children is a caller error, excluded by contract.
    pub fn remove_child(&mut self, idx: usize) -> (r: Child)
        requires
            idx < old(self).children@.len(),
        ensures
            r == old(self).children@[idx as int],
            final(self).children@ == old(self).children@.remove(idx as int),
            *final(self) == (Flex {
                children: final(self).children,
                needs_layout: true,
                ..*old(self)
            }),
            old(self).wf() ==> final(self).wf(),
    {
        let removed = self.children.remove(idx);
        self.needs_layout = true;
        removed
    }

    /// Updates the flex parameters for the child at `idx`.
    ///
    /// The child must be a widget, not a spacer, and the index must be in
    /// range: both are caller errors, excluded by contract.
    pub fn update_child_flex_params(&mut self, idx: usize, params: FlexParams)
        requires
            params.wf(),
            idx < old(self).children@.len(),
            old(self).children@[idx as int] is Fixed || old(self).children@[idx as int] is Flex,
        ensures
            final(self).children@ == old(self).children@.update(
                idx as int,
                new_flex_child_spec(
                    params,
                    match old(self).children@[idx as int] {
                        Child::Fixed { widget, .. } => widget,
                        Child::Flex { widget, .. } => widget,
                        _ => old(self).children@[idx as int]->Fixed_widget,
                    },
                ),
            ),
            *final(self) == (Flex {
                children: final(self).children,
                needs_layout: true,
                ..*old(self)
            }),
            old(self).wf() ==> final(self).wf(),
    {
        let widget: Element = match &self.children[idx] {
            Child::Fixed { widget, .. } => *widget,
            Child::Flex { widget, .. } => *widget,
            _ => {
                proof {
                    assert(false);
                }
                Element::new(Size::zero(), 0)
            },
        };
        let entry = new_flex_child(params, widget);
        self.children[idx] = entry;
        self.needs_layout = true;
    }

    /// Updates the spacer at `idx` to a weighted spacer; a fixed spacer is
    /// overwritten.
    ///
    /// A negative weight is clamped to zero.  The child must be a spacer and
    /// the index in range: both are caller errors, excluded by contract.
    pub fn update_spacer_flex(&mut self, idx: usize, flex: i64)
        requires
            -LIMIT <= flex <= LIMIT,
            idx < old(self).children@.len(),
            old(self).children@[idx as int] is FixedSpacer || old(self).children@[idx as int]
                is FlexedSpacer,
        ensures
            final(self).children@ == old(self).children@.update(
                idx as int,
                Child::FlexedSpacer(
                    if flex < 0 {
                        0i64
                    } else {
                        flex
                    },
                    0i64,
                ),
            ),
            *final(self) == (Flex {
                children: final(self).children,
                needs_layout: true,
                ..*old(self)
            }),
            old(self).wf() ==> final(self).wf(),
    {
        let clamped: i64 = if flex < 0 {
            0
        } else {
            flex
        };
        self.children[idx] = Child::FlexedSpacer(clamped, 0);
        self.needs_layout = true;
    }

    /// Updates the spacer at `idx` to a fixed spacer; a weighted spacer is
    /// overwritten.
    ///
    /// The child must be a spacer and the index in range: both are caller
    /// errors, excluded by contract.
    pub fn update_spacer_fixed(&mut self, idx: usize, len: i64)
        requires
            -LIMIT <= len <= LIMIT,
            idx < old(self).children@.len(),
            old(self).children@[idx as int] is FixedSpacer || old(self).children@[idx as int]
                is FlexedSpacer,
        ensures
            final(self).children@ == old(self).children@.update(
                idx as int,
                Child::FixedSpacer(len, 0i64),
            ),
            *final(self) == (Flex {
                children: final(self).children,
                needs_layout: true,
                ..*old(self)
            }),
            old(self).wf() ==> final(self).wf(),
    {
        self.children[idx] = Child::FixedSpacer(len, 0);
        self.needs_layout = true;
    }

    /// Returns a mutable reference to the child widget at `idx`, or `None`
    /// if the child at `idx` is a spacer.
    ///
    /// An index at or beyond the number of children is a caller error,
    /// excluded by contract.
    pub fn child_mut(&mut self, idx: usize) -> (r: Option<&mut Element>)
        requires
            idx < old(self).children@.len(),
        ensures
            (r is Some) == (old(self).children@[idx as int] is Fixed || old(
                self,
            ).children@[idx as int] is Flex),
            r is None ==> *final(self) == *old(self),
    {
        let is_widget: bool = match &self.children[idx] {
            Child::Fixed { .. } => true,
            Child::Flex { .. } => true,
            _ => false,
        };
        if !is_widget {
            return None;
        }
        match &mut self.children[idx] {
            Child::Fixed { widget, .. } => Some(widget),
            Child::Flex { widget, .. } => Some(widget),
            Child::FixedSpacer(..) => {
                proof {
                    assert(false);
                }
                None
            },
            Child::FlexedSpacer(..) => {
                proof {
                    assert(false);
                }
                None
            },
        }
    }

    /// Remove all children from the container.
    pub fn clear(&mut self)
        ensures
            final(self).children@.len() == 0,
            old(self).children@.len() > 0 ==> *final(self) == (Flex {
                children: final(self).children,
                needs_layout: true,
                ..*old(self)
            }),
            old(self).children@.len() == 0 ==> *final(self) == *old(self),
            old(self).wf() ==> final(self).wf(),
    {
        if self.children.len() > 0 {
            self.children.clear();
            self.needs_layout = true;
        }
    }
}

/// The abstract value of a container: the same data with the child sequence
/// as a mathematical sequence.  The layout model below is stated over it.
pub struct FlexModel {
    pub direction: Axis,
    pub cross_alignment: CrossAxisAlignment,
    pub main_alignment: MainAxisAlignment,
    pub fill_major_axis: bool,
    pub children: Seq<Child>,
    pub old_bc: BoxConstraints,
    pub gap: Option<i64>,
    pub needs_layout: bool,
    pub border: i64,
    pub padding: Padding,
}

impl FlexModel {
    /// Mirror of [`Flex::wf`] on the abstract value.
    pub open spec fn wf(self) -> bool {
        &&& self.children.len() <= LIMIT
        &&& forall|i: int| 0 <= i < self.children.len() ==> self.children[i].wf()
        &&& match self.gap {
            Some(g) => 0 <= g <= LIMIT,
            None => true,
        }
        &&& self.old_bc.wf()
        &&& 0 <= self.border <= INSET_LIMIT
        &&& self.padding.wf()
    }
}

impl Flex {
    /// The abstract value of this container.
    pub open spec fn model(self) -> FlexModel {
        FlexModel {
            direction: self.direction,
            cross_alignment: self.cross_alignment,
            main_alignment: self.main_alignment,
            fill_major_axis: self.fill_major_axis,
            children: self.children@,
            old_bc: self.old_bc,
            gap: self.gap,
            needs_layout: self.needs_layout,
            border: self.border,
            padding: self.padding,
        }
    }
}

/// What one layout call returns: the container's size and its baseline
/// offset, measured up from the container's bottom edge.
#[derive(Clone, Copy, Debug, PartialEq, Eq, Structural)]
pub struct LayoutOutput {
    pub size: Size,
    pub baseline: i64,
}

/// The measuring environment of one layout call, fixed before the passes.
#[derive(Clone, Copy)]
pub struct LayoutEnv {
    pub direction: Axis,
    pub cross_default: CrossAxisAlignment,
    pub loosened: BoxConstraints,
    pub bc_changed: bool,
}

/// The alignment a child actually uses: its override, else the container's.
pub open spec fn effective_alignment(
    cross_default: CrossAxisAlignment,
    al: Option<CrossAxisAlignment>,
) -> CrossAxisAlignment {
    match al {
        Some(a) => a,
        None => cross_default,
    }
}

/// Whether this child is an element aligned on the baseline.
pub open spec fn child_uses_baseline(cross_default: CrossAxisAlignment, ch: Child) -> bool {
    match ch {
        Child::Fixed { alignment, .. } => effective_alignment(cross_default, alignment)
            == CrossAxisAlignment::Baseline,
        Child::Flex { alignment, .. } => effective_alignment(cross_default, alignment)
            == CrossAxisAlignment::Baseline,
        _ => false,
    }
}

/// Whether any child requests baseline alignment.
pub open spec fn uses_baseline(cross_default: CrossAxisAlignment, s: Seq<Child>) -> bool {
    exists|i: int| 0 <= i < s.len() && child_uses_baseline(cross_default, s[i])
}

/// Whether the fixed pass re-measures this element rather than reusing its
/// cached size.
pub open spec fn fixed_measured(env: LayoutEnv, w: Element) -> bool {
    env.bc_changed || w.needs_layout
}

/// The child entry after the fixed pass.
pub open spec fn pass1_child(env: LayoutEnv, ch: Child) -> Child {
    match ch {
        Child::Fixed { widget, alignment } => {
            if fixed_measured(env, widget) {
                Child::Fixed {
                    widget: Element {
                        size: env.loosened.constrain_s(widget.preferred),
                        needs_layout: false,
                        ..widget
                    },
                    alignment,
                }
            } else {
                ch
            }
        },
        Child::FixedSpacer(len, _) => Child::FixedSpacer(len, max_s(len, 0)),
        _ => ch,
    }
}

/// Accumulators of the fixed pass.
#[derive(Clone, Copy)]
pub struct Pass1 {
    pub major_non_flex: i64,
    pub flex_sum: i64,
    pub minor: i64,
    pub max_above: i64,
    pub max_below: i64,
    pub any_changed: bool,
}

/// One step of the fixed pass over one child.
pub open spec fn pass1_step(env: LayoutEnv, st: Pass1, ch: Child) -> Pass1 {
    match ch {
        Child::Fixed { widget, alignment } => {
            let measured = fixed_measured(env, widget);
            let size = if measured {
                env.loosened.constrain_s(widget.preferred)
            } else {
                widget.size
            };
            Pass1 {
                major_non_flex: sat_add_s(st.major_non_flex, major_s(env.direction, size)),
                flex_sum: st.flex_sum,
                minor: max_s(st.minor, minor_s(env.direction, size)),
                max_above: max_s(st.max_above, sat_sub_s(size.height, widget.baseline)),
                max_below: max_s(st.max_below, widget.baseline),
                any_changed: st.any_changed || (measured && size != widget.size),
            }
        },
        Child::FixedSpacer(len, _) => Pass1 {
            major_non_flex: sat_add_s(st.major_non_flex, max_s(len, 0)),
            ..st
        },
        Child::Flex { flex, .. } => Pass1 { flex_sum: sat_add_s(st.flex_sum, flex), ..st },
        Child::FlexedSpacer(flex, _) => Pass1 { flex_sum: sat_add_s(st.flex_sum, flex), ..st },
    }
}

/// The fixed-pass accumulators after the first `i` children.
pub open spec fn pass1_state(env: LayoutEnv, s: Seq<Child>, init: Pass1, i: int) -> Pass1
    decreases i,
{
    if i <= 0 {
        init
    } else {
        pass1_step(env, pass1_state(env, s, init, i - 1), s[i - 1])
    }
}

/// One rounded weighted share of the remaining space: the allocation and the
/// remainder carried to the next flexible item (`flex_sum >= 1`).
pub open spec fn flex_alloc(remaining: i64, flex_sum: i64, flex: i64, rem: i64) -> (int, int) {
    let desired = flex * remaining + rem;
    let e = round_away_s(desired, flex_sum as int);
    (e, desired - e * flex_sum)
}

/// Accumulators of the flexible pass, continuing those of the fixed pass.
#[derive(Clone, Copy)]
pub struct Pass2 {
    pub rem: i64,
    pub major_flex: i64,
    pub minor: i64,
    pub max_above: i64,
    pub max_below: i64,
    pub any_changed: bool,
}

/// The major-axis extent granted to a flexible element, and the remainder
/// carried onward.  With an unbounded major axis the element is offered the
/// unbounded loosened envelope and the remainder is untouched.
pub open spec fn flex_grant(remaining: i64, flex_sum: i64, flex: i64, rem: i64) -> (i64, i64) {
    if remaining == UNBOUNDED {
        (UNBOUNDED, rem)
    } else {
        let a = flex_alloc(remaining, flex_sum, flex, rem);
        (a.0 as i64, a.1 as i64)
    }
}

/// The length a weighted spacer resolves to, and the remainder carried
/// onward.  With an unbounded major axis, or no flexible weight at all, the
/// share is undefined, so the spacer resolves to zero extra involvement:
/// an unbounded axis grants a positive-weight spacer everything.
pub open spec fn spacer_grant(remaining: i64, flex_sum: i64, flex: i64, rem: i64) -> (i64, i64) {
    if remaining == UNBOUNDED {
        (
            if flex > 0 {
                UNBOUNDED
            } else {
                0
            },
            rem,
        )
    } else if flex_sum == 0 {
        (0, rem)
    } else {
        let a = flex_alloc(remaining, flex_sum, flex, rem);
        (a.0 as i64, a.1 as i64)
    }
}

/// The child entry after the flexible pass, given the accumulator state at
/// its position.
pub open spec fn pass2_child(
    env: LayoutEnv,
    remaining: i64,
    flex_sum: i64,
    st: Pass2,
    ch: Child,
) -> Child {
    match ch {
        Child::Flex { widget, alignment, flex } => {
            if st.any_changed || widget.needs_layout {
                let actual = flex_grant(remaining, flex_sum, flex, st.rem).0;
                let cbc = constraints_s(env.direction, env.loosened, 0, actual);
                Child::Flex {
                    widget: Element {
                        size: cbc.constrain_s(widget.preferred),
                        needs_layout: false,
                        ..widget
                    },
                    alignment,
                    flex,
                }
            } else {
                ch
            }
        },
        Child::FlexedSpacer(flex, _) => Child::FlexedSpacer(
            flex,
            spacer_grant(remaining, flex_sum, flex, st.rem).0,
        ),
        _ => ch,
    }
}

/// One step of the flexible pass over one child.
pub open spec fn pass2_step(
    env: LayoutEnv,
    remaining: i64,
    flex_sum: i64,
    st: Pass2,
    ch: Child,
) -> Pass2 {
    match ch {
        Child::Flex { widget, alignment, flex } => {
            let measured = st.any_changed || widget.needs_layout;
            let g = flex_grant(remaining, flex_sum, flex, st.rem);
            let size = if measured {
                constraints_s(env.direction, env.loosened, 0, g.0).constrain_s(widget.preferred)
            } else {
                widget.size
            };
            let rem2 = if measured {
                g.1
            } else {
                st.rem
            };
            Pass2 {
                rem: rem2,
                major_flex: sat_add_s(st.major_flex, major_s(env.direction, size)),
                minor: max_s(st.minor, minor_s(env.direction, size)),
                max_above: max_s(st.max_above, sat_sub_s(size.height, widget.baseline)),
                max_below: max_s(st.max_below, widget.baseline),
                any_changed: st.any_changed || (measured && size != widget.size),
            }
        },
        Child::FlexedSpacer(flex, _) => {
            let g = spacer_grant(remaining, flex_sum, flex, st.rem);
            Pass2 { rem: g.1, major_flex: sat_add_s(st.major_flex, g.0), ..st }
        },
        _ => st,
    }
}

/// The flexible-pass accumulators after the first `i` children.
pub open spec fn pass2_state(
    env: LayoutEnv,
    remaining: i64,
    flex_sum: i64,
    s: Seq<Child>,
    init: Pass2,
    i: int,
) -> Pass2
    decreases i,
{
    if i <= 0 {
        init
    } else {
        pass2_step(env, remaining, flex_sum, pass2_state(env, remaining, flex_sum, s, init, i - 1), s[i - 1])
    }
}

/// The child entry at position `i` after the flexible pass.
pub open spec fn pass2_child_at(
    env: LayoutEnv,
    remaining: i64,
    flex_sum: i64,
    s: Seq<Child>,
    init: Pass2,
    i: int,
) -> Child {
    pass2_child(env, remaining, flex_sum, pass2_state(env, remaining, flex_sum, s, init, i), s[i])
}

/// The extra major-axis space the alignment policy distributes.  A container
/// told to fill hands out whatever the flexible pass left over; otherwise
/// extra space appears only if the container's own minimum demands it.
pub open spec fn extra_space(
    fill: bool,
    remaining: i64,
    min_major: i64,
    major_non_flex: i64,
    major_flex: i64,
) -> i64 {
    if fill {
        if remaining == UNBOUNDED || major_flex == UNBOUNDED {
            0
        } else if remaining - major_flex < 0 {
            0
        } else {
            (remaining - major_flex) as i64
        }
    } else {
        let used = sat_add_s(major_non_flex, major_flex);
        if used == UNBOUNDED {
            0
        } else if min_major - used < 0 {
            0
        } else {
            (min_major - used) as i64
        }
    }
}

/// The placement environment, fixed between the flexible pass and placement.
#[derive(Clone, Copy)]
pub struct Env3 {
    pub direction: Axis,
    pub cross_default: CrossAxisAlignment,
    pub main_alignment: MainAxisAlignment,
    pub extra: i64,
    pub n_children: usize,
    pub gap: i64,
    pub minor_dim: i64,
    pub extra_height: i64,
    pub max_above: i64,
    pub off_x: i64,
    pub off_y: i64,
}

/// The `k`-th value of the spacing distributor for this placement.
pub open spec fn gap_at(env: Env3, k: int) -> i64 {
    spacing_value(env.main_alignment, env.extra as int, env.n_children as nat, k as nat) as i64
}

/// Cursor and distributor position during placement.
pub struct Pass3 {
    pub cursor: i64,
    pub sp_index: int,
}

/// An element after placement: its minor-axis offset from its alignment, a
/// fill-aligned element re-measured tight, and the origin recorded.
pub open spec fn pass3_element(
    env: Env3,
    cursor: i64,
    widget: Element,
    alignment: Option<CrossAxisAlignment>,
) -> Element {
    let al = effective_alignment(env.cross_default, alignment);
    let size = widget.size;
    let placed = if al == CrossAxisAlignment::Baseline && env.direction == Axis::Horizontal {
        (
            widget,
            sat_add_s(env.extra_height, sat_sub_s(env.max_above, sat_sub_s(size.height, widget.baseline))),
        )
    } else if al == CrossAxisAlignment::Fill {
        let p = pack_s(env.direction, major_s(env.direction, size), env.minor_dim);
        let fill_size = Size { width: p.0, height: p.1 };
        if widget.size != fill_size {
            (Element { size: fill_size, needs_layout: false, ..widget }, 0i64)
        } else {
            (widget, 0i64)
        }
    } else {
        (widget, align_s(al, sat_sub_s(env.minor_dim, minor_s(env.direction, size))))
    };
    let pp = pack_s(env.direction, cursor, placed.1);
    Element {
        origin: Point { x: sat_add_s(pp.0, env.off_x), y: sat_add_s(pp.1, env.off_y) },
        ..placed.0
    }
}

/// The child entry after placement, given the cursor state at its position.
pub open spec fn pass3_child(env: Env3, st: Pass3, ch: Child) -> Child {
    match ch {
        Child::Fixed { widget, alignment } => Child::Fixed {
            widget: pass3_element(env, st.cursor, widget, alignment),
            alignment,
        },
        Child::Flex { widget, alignment, flex } => Child::Flex {
            widget: pass3_element(env, st.cursor, widget, alignment),
            alignment,
            flex,
        },
        _ => ch,
    }
}

/// One step of placement over one child: elements advance the cursor by
/// their extent, one distributor gap, and the container gap; spacers advance
/// it by their resolved length and the container gap.
pub open spec fn pass3_step(env: Env3, st: Pass3, ch: Child) -> Pass3 {
    match ch {
        Child::Fixed { widget, .. } => Pass3 {
            cursor: sat_add_s(
                sat_add_s(sat_add_s(st.cursor, major_s(env.direction, widget.size)), gap_at(env, st.sp_index)),
                env.gap,
            ),
            sp_index: st.sp_index + 1,
        },
        Child::Flex { widget, .. } => Pass3 {
            cursor: sat_add_s(
                sat_add_s(sat_add_s(st.cursor, major_s(env.direction, widget.size)), gap_at(env, st.sp_index)),
                env.gap,
            ),
            sp_index: st.sp_index + 1,
        },
        Child::FixedSpacer(_, computed) => Pass3 {
            cursor: sat_add_s(sat_add_s(st.cursor, computed), env.gap),
            sp_index: st.sp_index,
        },
        Child::FlexedSpacer(_, computed) => Pass3 {
            cursor: sat_add_s(sat_add_s(st.cursor, computed), env.gap),
            sp_index: st.sp_index,
        },
    }
}

/// The placement state after the first `i` children.
pub open spec fn pass3_state(env: Env3, s: Seq<Child>, init: Pass3, i: int) -> Pass3
    decreases i,
{
    if i <= 0 {
        init
    } else {
        pass3_step(env, pass3_state(env, s, init, i - 1), s[i - 1])
    }
}

/// The child entry at position `i` after placement.
pub open spec fn pass3_child_at(env: Env3, s: Seq<Child>, init: Pass3, i: int) -> Child {
    pass3_child(env, pass3_state(env, s, init, i), s[i])
}

/// The gap between adjacent children: the explicit one, or the axis default.
pub open spec fn resolved_gap(m: FlexModel) -> i64 {
    match m.gap {
        Some(g) => g,
        None => axis_default_spacer_spec(m.direction),
    }
}

/// The major-axis room reserved for gaps: one gap between each adjacent pair.
pub open spec fn total_gap_spec(gap: i64, n: nat) -> i64 {
    if n == 0 {
        0
    } else {
        (gap * (n - 1)) as i64
    }
}

/// The envelope the container works in: the incoming one with the border and
/// padding insets taken out.
pub open spec fn working_bc(m: FlexModel, bc: BoxConstraints) -> BoxConstraints {
    bc.shrink_s((2 * m.border) as i64, (2 * m.border) as i64).shrink_s(
        (m.padding.left + m.padding.right) as i64,
        (m.padding.top + m.padding.bottom) as i64,
    )
}

/// The fixed-pass accumulators before any child: the reserved gap space, the
/// minimum minor extent, and the forced-dirty flag.
pub open spec fn pass1_init(m: FlexModel, bc: BoxConstraints, bc_changed: bool) -> Pass1 {
    Pass1 {
        major_non_flex: total_gap_spec(resolved_gap(m), m.children.len()),
        flex_sum: 0,
        minor: minor_s(m.direction, bc.min),
        max_above: 0,
        max_below: 0,
        any_changed: bc_changed || m.needs_layout,
    }
}

/// The measuring environment of the layout of `m` under `bc0`.
pub open spec fn stage_env(m: FlexModel, bc0: BoxConstraints) -> LayoutEnv {
    let bc = working_bc(m, bc0);
    LayoutEnv {
        direction: m.direction,
        cross_default: m.cross_alignment,
        loosened: BoxConstraints { min: Size { width: 0, height: 0 }, max: bc.max },
        bc_changed: m.old_bc != bc,
    }
}

/// The fixed-pass accumulators of that layout, after every child.
pub open spec fn stage_st1(m: FlexModel, bc0: BoxConstraints) -> Pass1 {
    let bc = working_bc(m, bc0);
    pass1_state(
        stage_env(m, bc0),
        m.children,
        pass1_init(m, bc, m.old_bc != bc),
        m.children.len() as int,
    )
}

/// The children after the fixed pass.
pub open spec fn stage_s1(m: FlexModel, bc0: BoxConstraints) -> Seq<Child> {
    Seq::new(m.children.len(), |i: int| pass1_child(stage_env(m, bc0), m.children[i]))
}

/// The major-axis room left over for the flexible pass.
pub open spec fn stage_remaining(m: FlexModel, bc0: BoxConstraints) -> i64 {
    sub_floor_s(
        major_s(m.direction, working_bc(m, bc0).max),
        stage_st1(m, bc0).major_non_flex,
    )
}

/// The flexible-pass accumulators before any child.
pub open spec fn stage_init2(m: FlexModel, bc0: BoxConstraints) -> Pass2 {
    let st1 = stage_st1(m, bc0);
    Pass2 {
        rem: 0,
        major_flex: 0,
        minor: st1.minor,
        max_above: st1.max_above,
        max_below: st1.max_below,
        any_changed: st1.any_changed,
    }
}

/// The flexible-pass accumulators after every child.
pub open spec fn stage_st2(m: FlexModel, bc0: BoxConstraints) -> Pass2 {
    pass2_state(
        stage_env(m, bc0),
        stage_remaining(m, bc0),
        stage_st1(m, bc0).flex_sum,
        stage_s1(m, bc0),
        stage_init2(m, bc0),
        m.children.len() as int,
    )
}

/// The children after the flexible pass.
pub open spec fn stage_s2(m: FlexModel, bc0: BoxConstraints) -> Seq<Child> {
    Seq::new(
        m.children.len(),
        |i: int|
            pass2_child_at(
                stage_env(m, bc0),
                stage_remaining(m, bc0),
                stage_st1(m, bc0).flex_sum,
                stage_s1(m, bc0),
                stage_init2(m, bc0),
                i,
            ),
    )
}

/// The extra major-axis space the alignment policy distributes.
pub open spec fn stage_extra(m: FlexModel, bc0: BoxConstraints) -> i64 {
    extra_space(
        m.fill_major_axis,
        stage_remaining(m, bc0),
        major_s(m.direction, working_bc(m, bc0).min),
        stage_st1(m, bc0).major_non_flex,
        stage_st2(m, bc0).major_flex,
    )
}

/// The cross-axis extent the children are aligned against.
pub open spec fn stage_minor_dim(m: FlexModel, bc0: BoxConstraints) -> i64 {
    let st2 = stage_st2(m, bc0);
    if m.direction == Axis::Horizontal && uses_baseline(m.cross_alignment, m.children) {
        sat_add_s(st2.max_below, st2.max_above)
    } else {
        st2.minor
    }
}

/// The placement environment.
pub open spec fn stage_env3(m: FlexModel, bc0: BoxConstraints) -> Env3 {
    let st2 = stage_st2(m, bc0);
    let minor_dim = stage_minor_dim(m, bc0);
    Env3 {
        direction: m.direction,
        cross_default: m.cross_alignment,
        main_alignment: m.main_alignment,
        extra: stage_extra(m, bc0),
        n_children: m.children.len() as usize,
        gap: resolved_gap(m),
        minor_dim,
        extra_height: sat_sub_s(st2.minor, min_s(minor_dim, st2.minor)),
        max_above: st2.max_above,
        off_x: sat_add_s(m.border, m.padding.left),
        off_y: sat_add_s(m.border, m.padding.top),
    }
}

/// The placement state before any child.
pub open spec fn stage_init3(m: FlexModel, bc0: BoxConstraints) -> Pass3 {
    Pass3 { cursor: gap_at(stage_env3(m, bc0), 0), sp_index: 1 }
}

/// The placement state after every child.
pub open spec fn stage_st3(m: FlexModel, bc0: BoxConstraints) -> Pass3 {
    pass3_state(stage_env3(m, bc0), stage_s2(m, bc0), stage_init3(m, bc0), m.children.len() as int)
}

/// The children after placement: the container's children after the call.
pub open spec fn stage_s3(m: FlexModel, bc0: BoxConstraints) -> Seq<Child> {
    Seq::new(
        m.children.len(),
        |i: int| pass3_child_at(stage_env3(m, bc0), stage_s2(m, bc0), stage_init3(m, bc0), i),
    )
}

/// What the layout call returns.
pub open spec fn stage_output(m: FlexModel, bc0: BoxConstraints) -> LayoutOutput {
    let n = m.children.len();
    let gap = resolved_gap(m);
    let st1 = stage_st1(m, bc0);
    let st2 = stage_st2(m, bc0);
    let st3 = stage_st3(m, bc0);
    let s3 = stage_s3(m, bc0);
    let minor_dim = stage_minor_dim(m, bc0);
    let total_major = major_s(m.direction, working_bc(m, bc0).max);
    let content_major = if n > 0 {
        if st3.cursor == UNBOUNDED {
            UNBOUNDED
        } else {
            sat_sub_s(st3.cursor, gap)
        }
    } else {
        st3.cursor
    };
    let final_major = if st1.flex_sum > 0 {
        total_major
    } else {
        content_major
    };
    let p = pack_s(m.direction, final_major, minor_dim);
    let my_size = Size { width: p.0, height: p.1 };
    let baseline0 = match m.direction {
        Axis::Horizontal => st2.max_below,
        Axis::Vertical => if n == 0 {
            0i64
        } else {
            match s3[n - 1] {
                Child::Fixed { widget, .. } => vertical_baseline(widget, my_size),
                Child::Flex { widget, .. } => vertical_baseline(widget, my_size),
                _ => 0i64,
            }
        },
    };
    let size_up = Size {
        width: sat_add_s(
            sat_add_s(my_size.width, (m.padding.left + m.padding.right) as i64),
            (2 * m.border) as i64,
        ),
        height: sat_add_s(
            sat_add_s(my_size.height, (m.padding.top + m.padding.bottom) as i64),
            (2 * m.border) as i64,
        ),
    };
    let baseline_up = sat_add_s(sat_add_s(baseline0, m.padding.bottom), m.border);
    LayoutOutput { size: size_up, baseline: baseline_up }
}

/// The whole layout call as a function of the container's abstract value and
/// the incoming envelope: the container afterwards, and what the call
/// returns.  [`Flex::layout`] is proved equal to this model.
pub open spec fn layout_spec(m: FlexModel, bc0: BoxConstraints) -> (FlexModel, LayoutOutput) {
    (
        FlexModel {
            children: stage_s3(m, bc0),
            old_bc: working_bc(m, bc0),
            needs_layout: false,
            ..m
        },
        stage_output(m, bc0),
    )
}

/// A vertical container's baseline: the last element's own baseline plus the
/// room between that element's bottom edge and the container's.
pub open spec fn vertical_baseline(widget: Element, my_size: Size) -> i64 {
    let max_y = sat_add_s(widget.origin.y, widget.size.height);
    sat_add_s(widget.baseline, sat_sub_s(my_size.height, max_y))
}

/// The running weight total is monotone: it never drops below zero, and once
/// a child's weight has been added it stays a lower bound.
proof fn lemma_flex_sum_ge(env: LayoutEnv, s: Seq<Child>, init: Pass1, j: int, i: int)
    requires
        0 <= i <= s.len(),
        init.flex_sum >= 0,
        forall|k: int| 0 <= k < s.len() ==> s[k].wf(),
    ensures
        pass1_state(env, s, init, i).flex_sum >= 0,
        0 <= j < i && (s[j] is Flex || s[j] is FlexedSpacer) ==> pass1_state(
            env,
            s,
            init,
            i,
        ).flex_sum >= (match s[j] {
            Child::Flex { flex, .. } => flex,
            Child::FlexedSpacer(f, _) => f,
            _ => 0i64,
        }),
    decreases i,
{
    if i > 0 {
        lemma_flex_sum_ge(env, s, init, j, i - 1);
    }
}

/// Run the fixed pass over the whole child sequence: measure or skip each
/// fixed element, resolve fixed spacers, and accumulate extents and weights.
fn run_pass1(children: &mut Vec<Child>, env: LayoutEnv, init: Pass1) -> (st: Pass1)
    requires
        old(children)@.len() <= LIMIT,
        forall|j: int| 0 <= j < old(children)@.len() ==> (#[trigger] old(children)@[j]).wf(),
        env.loosened.wf(),
        init.major_non_flex >= 0,
        init.flex_sum == 0,
        init.minor >= 0,
        init.max_above >= 0,
        init.max_below >= 0,
    ensures
        st == pass1_state(env, old(children)@, init, old(children)@.len() as int),
        final(children)@ == Seq::new(
            old(children)@.len(),
            |j: int| pass1_child(env, old(children)@[j]),
        ),
        forall|j: int| 0 <= j < final(children)@.len() ==> (#[trigger] final(children)@[j]).wf(),
        st.major_non_flex >= 0,
        0 <= st.flex_sum <= old(children)@.len() * LIMIT,
        st.minor >= 0,
        st.max_above >= 0,
        st.max_below >= 0,
{
    let ghost s = old(children)@;
    let n: usize = children.len();
    let mut major_non_flex: i64 = init.major_non_flex;
    let mut flex_sum: i64 = init.flex_sum;
    let mut minor: i64 = init.minor;
    let mut max_above: i64 = init.max_above;
    let mut max_below: i64 = init.max_below;
    let mut any_changed: bool = init.any_changed;
    let mut i: usize = 0;
    while i < n
        invariant
            n == children@.len(),
            n == s.len(),
            n <= LIMIT,
            i <= n,
            env.loosened.wf(),
            forall|j: int| i <= j < n ==> children@[j] == s[j],
            forall|j: int| 0 <= j < i ==> children@[j] == pass1_child(env, s[j]),
            forall|j: int| 0 <= j < n ==> (#[trigger] children@[j]).wf(),
            forall|j: int| 0 <= j < n ==> (#[trigger] s[j]).wf(),
            major_non_flex == pass1_state(env, s, init, i as int).major_non_flex,
            flex_sum == pass1_state(env, s, init, i as int).flex_sum,
            minor == pass1_state(env, s, init, i as int).minor,
            max_above == pass1_state(env, s, init, i as int).max_above,
            max_below == pass1_state(env, s, init, i as int).max_below,
            any_changed == pass1_state(env, s, init, i as int).any_changed,
            major_non_flex >= 0,
            0 <= flex_sum <= i * LIMIT,
            minor >= 0,
            max_above >= 0,
            max_below >= 0,
        decreases n - i,
    {
        let ch = children[i];
        match ch {
            Child::Fixed { widget, alignment } => {
                let cond: bool = env.bc_changed || widget.needs_layout;
                let size: Size;
                if cond {
                    let mut w = widget;
                    let got = w.measure(&env.loosened);
                    size = got;
                    if !(got == widget.size) {
                        any_changed = true;
                    }
                    children[i] = Child::Fixed { widget: w, alignment };
                } else {
                    size = widget.size;
                }
                major_non_flex = sat_add(major_non_flex, env.direction.major(size));
                minor = len_max(minor, env.direction.minor(size));
                max_above = len_max(max_above, sat_sub(size.height, widget.baseline));
                max_below = len_max(max_below, widget.baseline);
            },
            Child::FixedSpacer(len, _) => {
                let computed: i64 = if len < 0 {
                    0
                } else {
                    len
                };
                children[i] = Child::FixedSpacer(len, computed);
                major_non_flex = sat_add(major_non_flex, computed);
            },
            Child::Flex { flex, .. } => {
                flex_sum = sat_add(flex_sum, flex);
            },
            Child::FlexedSpacer(flex, _) => {
                flex_sum = sat_add(flex_sum, flex);
            },
        }
        i = i + 1;
    }
    proof {
        assert(children@ =~= Seq::new(s.len(), |j: int| pass1_child(env, s[j])));
    }
    Pass1 { major_non_flex, flex_sum, minor, max_above, max_below, any_changed }
}

/// Run the flexible pass over the whole child sequence: grant each flexible
/// element and spacer its weighted, remainder-carried share of the remaining
/// space, measure or skip the elements, and accumulate extents.
#[verifier::rlimit(100)]
fn run_pass2(children: &mut Vec<Child>, env: LayoutEnv, remaining: i64, flex_sum: i64, init: Pass2)
    -> (st: Pass2)
    requires
        old(children)@.len() <= LIMIT,
        forall|j: int| 0 <= j < old(children)@.len() ==> (#[trigger] old(children)@[j]).wf(),
        env.loosened.wf(),
        remaining == UNBOUNDED || 0 <= remaining <= LIMIT,
        0 <= flex_sum <= LIMIT * LIMIT,
        forall|j: int|
            0 <= j < old(children)@.len() ==> (match #[trigger] old(children)@[j] {
                Child::Flex { flex, .. } => flex_sum >= flex,
                Child::FlexedSpacer(f, _) => flex_sum >= f,
                _ => true,
            }),
        init.rem == 0,
        init.major_flex == 0,
        init.minor >= 0,
        init.max_above >= 0,
        init.max_below >= 0,
    ensures
        st == pass2_state(env, remaining, flex_sum, old(children)@, init, old(
            children,
        )@.len() as int),
        final(children)@ == Seq::new(
            old(children)@.len(),
            |j: int| pass2_child_at(env, remaining, flex_sum, old(children)@, init, j),
        ),
        forall|j: int| 0 <= j < final(children)@.len() ==> (#[trigger] final(children)@[j]).wf(),
        st.major_flex >= -(old(children)@.len() as int),
        st.minor >= 0,
        st.max_above >= 0,
        st.max_below >= 0,
{
    let ghost s = old(children)@;
    let n: usize = children.len();
    let mut rem: i64 = init.rem;
    let mut major_flex: i64 = init.major_flex;
    let mut minor: i64 = init.minor;
    let mut max_above: i64 = init.max_above;
    let mut max_below: i64 = init.max_below;
    let mut any_changed: bool = init.any_changed;
    let mut i: usize = 0;
    while i < n
        invariant
            n == children@.len(),
            n == s.len(),
            n <= LIMIT,
            i <= n,
            env.loosened.wf(),
            remaining == UNBOUNDED || 0 <= remaining <= LIMIT,
            0 <= flex_sum <= LIMIT * LIMIT,
            forall|j: int|
                0 <= j < n ==> (match #[trigger] s[j] {
                    Child::Flex { flex, .. } => flex_sum >= flex,
                    Child::FlexedSpacer(f, _) => flex_sum >= f,
                    _ => true,
                }),
            forall|j: int| i <= j < n ==> children@[j] == s[j],
            forall|j: int|
                0 <= j < i ==> children@[j] == pass2_child_at(env, remaining, flex_sum, s, init, j),
            forall|j: int| 0 <= j < n ==> (#[trigger] children@[j]).wf(),
            forall|j: int| 0 <= j < n ==> (#[trigger] s[j]).wf(),
            rem == pass2_state(env, remaining, flex_sum, s, init, i as int).rem,
            major_flex == pass2_state(env, remaining, flex_sum, s, init, i as int).major_flex,
            minor == pass2_state(env, remaining, flex_sum, s, init, i as int).minor,
            max_above == pass2_state(env, remaining, flex_sum, s, init, i as int).max_above,
            max_below == pass2_state(env, remaining, flex_sum, s, init, i as int).max_below,
            any_changed == pass2_state(env, remaining, flex_sum, s, init, i as int).any_changed,
            flex_sum == 0 || remaining == 0 || remaining == UNBOUNDED ==> rem == 0,
            -flex_sum <= 2 * rem <= flex_sum,
            major_flex >= -(i as int),
            minor >= 0,
            max_above >= 0,
            max_below >= 0,
        decreases n - i,
    {
        let ch = children[i];
        match ch {
            Child::Flex { widget, alignment, flex } => {
                proof {
                    assert(children@[i as int] == s[i as int]);
                    assert(children@[i as int].wf());
                }
                let measured: bool = any_changed || widget.needs_layout;
                let size: Size;
                if measured {
                    let actual: i64;
                    if remaining == UNBOUNDED {
                        actual = UNBOUNDED;
                    } else {
                        proof {
                            assert(flex * remaining <= LIMIT * LIMIT) by (nonlinear_arith)
                                requires
                                    0 <= flex <= LIMIT,
                                    0 <= remaining <= LIMIT,
                            ;
                            assert(flex * remaining >= 0) by (nonlinear_arith)
                                requires
                                    0 <= flex,
                                    0 <= remaining,
                            ;
                        }
                        let desired: i64 = flex * remaining + rem;
                        let e: i64 = round_away(desired, flex_sum);
                        proof {
                            lemma_round_near(desired as int, flex_sum as int);
                            lemma_round_lower(desired as int, flex_sum as int);
                            if remaining == 0 {
                                assert(flex * remaining == 0) by (nonlinear_arith)
                                    requires
                                        remaining == 0,
                                ;
                                assert(desired == 0);
                                assert(e == 0) by (nonlinear_arith)
                                    requires
                                        flex_sum >= 1,
                                        -flex_sum <= 2 * (0 - e * flex_sum) <= flex_sum,
                                        e >= 0,
                                ;
                            } else {
                                assert(flex * remaining >= 1) by (nonlinear_arith)
                                    requires
                                        flex >= 1,
                                        remaining >= 1,
                                ;
                                assert(2 * desired > -flex_sum);
                                assert(e >= 0);
                            }
                        }
                        rem = desired - e * flex_sum;
                        proof {
                            if remaining == 0 {
                                assert(e * flex_sum == 0) by (nonlinear_arith)
                                    requires
                                        e == 0,
                                ;
                                assert(rem == 0);
                            }
                        }
                        actual = e;
                    }
                    let cbc = env.direction.constraints(&env.loosened, 0, actual);
                    let mut w = widget;
                    let got = w.measure(&cbc);
                    size = got;
                    if !(got == widget.size) {
                        any_changed = true;
                    }
                    children[i] = Child::Flex { widget: w, alignment, flex };
                } else {
                    size = widget.size;
                }
                major_flex = sat_add(major_flex, env.direction.major(size));
                minor = len_max(minor, env.direction.minor(size));
                max_above = len_max(max_above, sat_sub(size.height, widget.baseline));
                max_below = len_max(max_below, widget.baseline);
            },
            Child::FlexedSpacer(flex, _) => {
                proof {
                    assert(children@[i as int] == s[i as int]);
                    assert(children@[i as int].wf());
                }
                let computed: i64;
                if remaining == UNBOUNDED {
                    computed = if flex > 0 {
                        UNBOUNDED
                    } else {
                        0
                    };
                } else if flex_sum == 0 {
                    computed = 0;
                } else {
                    proof {
                        assert(flex * remaining <= LIMIT * LIMIT) by (nonlinear_arith)
                            requires
                                0 <= flex <= LIMIT,
                                0 <= remaining <= LIMIT,
                        ;
                        assert(flex * remaining >= 0) by (nonlinear_arith)
                            requires
                                0 <= flex,
                                0 <= remaining,
                        ;
                    }
                    let desired: i64 = flex * remaining + rem;
                    let e: i64 = round_away(desired, flex_sum);
                    proof {
                        lemma_round_near(desired as int, flex_sum as int);
                        lemma_round_lower(desired as int, flex_sum as int);
                        assert(e >= -1);
                        if remaining == 0 {
                            assert(flex * remaining == 0) by (nonlinear_arith)
                                requires
                                    remaining == 0,
                            ;
                            assert(desired == 0);
                            assert(e == 0) by (nonlinear_arith)
                                requires
                                    flex_sum >= 1,
                                    -flex_sum <= 2 * (0 - e * flex_sum) <= flex_sum,
                                    e >= -1,
                                    2 * 0 >= 0 - flex_sum,
                                    e >= 0,
                            ;
                        }
                    }
                    rem = desired - e * flex_sum;
                    proof {
                        if remaining == 0 {
                            assert(e * flex_sum == 0) by (nonlinear_arith)
                                requires
                                    e == 0,
                            ;
                            assert(rem == 0);
                        }
                    }
                    computed = e;
                }
                children[i] = Child::FlexedSpacer(flex, computed);
                major_flex = sat_add(major_flex, computed);
            },
            _ => {},
        }
        i = i + 1;
    }
    proof {
        assert(children@ =~= Seq::new(
            s.len(),
            |j: int| pass2_child_at(env, remaining, flex_sum, s, init, j),
        ));
    }
    Pass2 { rem, major_flex, minor, max_above, max_below, any_changed }
}

/// Resolve one element's minor-axis offset from its alignment, re-measure a
/// fill-aligned element tight when its cache differs from the target, and
/// record the element's origin.
fn place_element(env: Env3, cursor: i64, widget: Element, alignment: Option<CrossAxisAlignment>)
    -> (w: Element)
    requires
        widget.wf(),
        env.minor_dim >= 0,
    ensures
        w == pass3_element(env, cursor, widget, alignment),
        w.wf(),
{
    let size = widget.size;
    let al: CrossAxisAlignment = match alignment {
        Some(a) => a,
        None => env.cross_default,
    };
    let mut w = widget;
    let offset: i64;
    if matches!(al, CrossAxisAlignment::Baseline) && matches!(env.direction, Axis::Horizontal) {
        offset = sat_add(env.extra_height, sat_sub(env.max_above, sat_sub(size.height, widget.baseline)));
    } else if matches!(al, CrossAxisAlignment::Fill) {
        let p = env.direction.pack(env.direction.major(size), env.minor_dim);
        let fill_size = Size::new(p.0, p.1);
        if !(widget.size == fill_size) {
            let tight = BoxConstraints::tight(fill_size);
            let got = w.measure(&tight);
            proof {
                assert(got == fill_size);
            }
        }
        offset = 0;
    } else {
        offset = al.align(sat_sub(env.minor_dim, env.direction.minor(size)));
    }
    let p2 = env.direction.pack(cursor, offset);
    w.place(Point::new(sat_add(p2.0, env.off_x), sat_add(p2.1, env.off_y)));
    w
}

/// Run placement over the whole child sequence and return the final cursor:
/// where the next child would have been placed on the major axis.
fn run_pass3(children: &mut Vec<Child>, env: Env3) -> (cursor: i64)
    requires
        old(children)@.len() <= LIMIT,
        old(children)@.len() == env.n_children,
        forall|j: int| 0 <= j < old(children)@.len() ==> (#[trigger] old(children)@[j]).wf(),
        0 <= env.extra <= 2 * LIMIT,
        env.minor_dim >= 0,
    ensures
        ({
            let init = Pass3 { cursor: gap_at(env, 0), sp_index: 1 };
            cursor == pass3_state(env, old(children)@, init, old(children)@.len() as int).cursor
                && final(children)@ == Seq::new(
                old(children)@.len(),
                |j: int| pass3_child_at(env, old(children)@, init, j),
            )
        }),
        forall|j: int| 0 <= j < final(children)@.len() ==> (#[trigger] final(children)@[j]).wf(),
{
    let ghost s = old(children)@;
    let n: usize = children.len();
    let mut spacing = Spacing::new(env.main_alignment, env.extra, env.n_children);
    let first_gap: i64 = match spacing.next() {
        Some(v) => v,
        None => 0,
    };
    let mut cursor: i64 = first_gap;
    let ghost init = Pass3 { cursor: gap_at(env, 0), sp_index: 1 };
    let mut i: usize = 0;
    while i < n
        invariant
            n == children@.len(),
            n == s.len(),
            n <= LIMIT,
            n == env.n_children,
            i <= n,
            env.minor_dim >= 0,
            0 <= env.extra <= 2 * LIMIT,
            forall|j: int| i <= j < n ==> children@[j] == s[j],
            forall|j: int| 0 <= j < i ==> children@[j] == pass3_child_at(env, s, init, j),
            forall|j: int| 0 <= j < n ==> (#[trigger] children@[j]).wf(),
            forall|j: int| 0 <= j < n ==> (#[trigger] s[j]).wf(),
            cursor == pass3_state(env, s, init, i as int).cursor,
            spacing.index == pass3_state(env, s, init, i as int).sp_index,
            spacing.index <= i + 1,
            spacing.wf(),
            spacing.alignment == env.main_alignment,
            spacing.extra == env.extra,
            spacing.n_children == env.n_children,
        decreases n - i,
    {
        let ch = children[i];
        match ch {
            Child::Fixed { widget, alignment } => {
                let w = place_element(env, cursor, widget, alignment);
                children[i] = Child::Fixed { widget: w, alignment };
                cursor = sat_add(cursor, env.direction.major(widget.size));
                let g: i64 = match spacing.next() {
                    Some(v) => v,
                    None => 0,
                };
                cursor = sat_add(cursor, g);
                cursor = sat_add(cursor, env.gap);
            },
            Child::Flex { widget, alignment, flex } => {
                let w = place_element(env, cursor, widget, alignment);
                children[i] = Child::Flex { widget: w, alignment, flex };
                cursor = sat_add(cursor, env.direction.major(widget.size));
                let g: i64 = match spacing.next() {
                    Some(v) => v,
                    None => 0,
                };
                cursor = sat_add(cursor, g);
                cursor = sat_add(cursor, env.gap);
            },
            Child::FixedSpacer(_, computed) => {
                cursor = sat_add(cursor, computed);
                cursor = sat_add(cursor, env.gap);
            },
            Child::FlexedSpacer(_, computed) => {
                cursor = sat_add(cursor, computed);
                cursor = sat_add(cursor, env.gap);
            },
        }
        i = i + 1;
    }
    proof {
        assert(children@ =~= Seq::new(s.len(), |j: int| pass3_child_at(env, s, init, j)));
    }
    cursor
}

/// The flexible weight one child contributes.
pub open spec fn child_weight(ch: Child) -> i64 {
    match ch {
        Child::Flex { flex, .. } => flex,
        Child::FlexedSpacer(f, _) => f,
        _ => 0,
    }
}

/// The total flexible weight of a child sequence.
pub open spec fn weight_sum(s: Seq<Child>) -> int
    decreases s.len(),
{
    if s.len() == 0 {
        0
    } else {
        weight_sum(s.drop_last()) + child_weight(s.last())
    }
}

/// The running weight total of the fixed pass is the exact weight sum: with
/// well-formed children the saturating additions never saturate.
proof fn lemma_flex_sum_exact(env: LayoutEnv, s: Seq<Child>, init: Pass1, i: int)
    requires
        0 <= i <= s.len() <= LIMIT,
        init.flex_sum == 0,
        forall|k: int| 0 <= k < s.len() ==> (#[trigger] s[k]).wf(),
    ensures
        pass1_state(env, s, init, i).flex_sum == weight_sum(s.take(i)),
        0 <= weight_sum(s.take(i)) <= i * LIMIT,
    decreases i,
{
    if i == 0 {
        assert(s.take(0) =~= Seq::<Child>::empty());
    } else {
        lemma_flex_sum_exact(env, s, init, i - 1);
        assert(s.take(i).drop_last() =~= s.take(i - 1));
        assert(s.take(i).last() == s[i - 1]);
        assert(0 <= child_weight(s[i - 1]) <= LIMIT);
        assert((i - 1) * LIMIT + LIMIT == i * LIMIT) by (nonlinear_arith);
        assert(i * LIMIT <= LIMIT * LIMIT) by (nonlinear_arith)
            requires
                0 <= i <= LIMIT,
        ;
    }
}

/// The weight sum of well-formed children is non-negative.
proof fn lemma_weight_sum_nonneg(s: Seq<Child>)
    requires
        forall|k: int| 0 <= k < s.len() ==> (#[trigger] s[k]).wf(),
    ensures
        weight_sum(s) >= 0,
    decreases s.len(),
{
    if s.len() > 0 {
        lemma_weight_sum_nonneg(s.drop_last());
        assert(s.last().wf());
    }
}

/// Each child's weight is non-negative and no more than the whole sum.
proof fn lemma_weight_sum_parts(s: Seq<Child>, j: int)
    requires
        0 <= j < s.len(),
        forall|k: int| 0 <= k < s.len() ==> (#[trigger] s[k]).wf(),
    ensures
        weight_sum(s) >= child_weight(s[j]),
        weight_sum(s) >= 0,
        child_weight(s[j]) >= 0,
    decreases s.len(),
{
    if j == s.len() - 1 {
        lemma_weight_sum_nonneg(s.drop_last());
        assert(s[j].wf());
    } else {
        lemma_weight_sum_parts(s.drop_last(), j);
        assert(s.drop_last()[j] == s[j]);
        assert(s.last().wf());
        assert(0 <= child_weight(s.last()));
    }
}

/// The forced-dirty flag of the fixed pass never clears within a pass.
proof fn lemma_pass1_any_changed_monotone(env: LayoutEnv, s: Seq<Child>, init: Pass1, i: int)
    requires
        init.any_changed,
        0 <= i,
    ensures
        pass1_state(env, s, init, i).any_changed,
    decreases i,
{
    if i > 0 {
        lemma_pass1_any_changed_monotone(env, s, init, i - 1);
    }
}

/// The forced-dirty flag of the flexible pass never clears within a pass.
proof fn lemma_pass2_any_changed_monotone(
    env: LayoutEnv,
    remaining: i64,
    flex_sum: i64,
    s: Seq<Child>,
    init: Pass2,
    i: int,
)
    requires
        init.any_changed,
        0 <= i,
    ensures
        pass2_state(env, remaining, flex_sum, s, init, i).any_changed,
    decreases i,
{
    if i > 0 {
        lemma_pass2_any_changed_monotone(env, remaining, flex_sum, s, init, i - 1);
    }
}

/// The major-axis inset the border and padding take together.
pub open spec fn major_insets(m: FlexModel) -> int {
    match m.direction {
        Axis::Horizontal => 2 * m.border + m.padding.left + m.padding.right,
        Axis::Vertical => 2 * m.border + m.padding.top + m.padding.bottom,
    }
}

/// The fill invariant: a container holding any flexible weight, offered a
/// finite major-axis maximum with room for its own insets, comes out exactly
/// that maximum on the major axis.
pub proof fn lemma_fill_invariant(m: FlexModel, bc: BoxConstraints)
    requires
        m.wf(),
        bc.wf(),
        weight_sum(m.children) > 0,
        major_s(m.direction, bc.max) != UNBOUNDED,
        major_s(m.direction, bc.max) >= major_insets(m),
    ensures
        major_s(m.direction, layout_spec(m, bc).1.size) == major_s(m.direction, bc.max),
{
    let bcw = working_bc(m, bc);
    let bc_changed = m.old_bc != bcw;
    let env = LayoutEnv {
        direction: m.direction,
        cross_default: m.cross_alignment,
        loosened: BoxConstraints { min: Size { width: 0, height: 0 }, max: bcw.max },
        bc_changed,
    };
    let init1 = pass1_init(m, bcw, bc_changed);
    let n = m.children.len() as int;
    lemma_flex_sum_exact(env, m.children, init1, n);
    assert(m.children.take(n) =~= m.children);
    let st1 = pass1_state(env, m.children, init1, n);
    assert(st1.flex_sum > 0);
    let max_major = major_s(m.direction, bc.max);
    assert(major_s(m.direction, bcw.max) == max_major - major_insets(m));
    let total_major = major_s(m.direction, bcw.max);
    assert(total_major != UNBOUNDED);
    let out = layout_spec(m, bc).1;
    assert(major_s(m.direction, out.size) == max_major);
}

/// Without must-fill, extra space appears only when the container's own
/// minimum is not yet met by what the children and gaps already use: meeting
/// the minimum leaves nothing to distribute, however much room was offered.
pub proof fn lemma_no_fill_no_extra(
    remaining: i64,
    min_major: i64,
    major_non_flex: i64,
    major_flex: i64,
)
    requires
        sat_add_s(major_non_flex, major_flex) >= min_major,
    ensures
        extra_space(false, remaining, min_major, major_non_flex, major_flex) == 0,
{
}

/// With no flexible weight at all the per-weight share is never formed: no
/// child is a flexible element, and every weighted spacer resolves to length
/// zero, whatever the constraints.
pub proof fn lemma_zero_weight_spacers(m: FlexModel, bc: BoxConstraints, i: int)
    requires
        m.wf(),
        weight_sum(m.children) == 0,
        0 <= i < m.children.len(),
    ensures
        !(m.children[i] is Flex),
        m.children[i] matches Child::FlexedSpacer(f, _) ==> f == 0 && layout_spec(
            m,
            bc,
        ).0.children[i] == Child::FlexedSpacer(0i64, 0i64),
{
    lemma_weight_sum_parts(m.children, i);
    assert(child_weight(m.children[i]) == 0);
    assert(m.children[i].wf());
    if m.children[i] is FlexedSpacer {
        let bcw = working_bc(m, bc);
        let bc_changed = m.old_bc != bcw;
        let env = LayoutEnv {
            direction: m.direction,
            cross_default: m.cross_alignment,
            loosened: BoxConstraints { min: Size { width: 0, height: 0 }, max: bcw.max },
            bc_changed,
        };
        let init1 = pass1_init(m, bcw, bc_changed);
        let n = m.children.len() as int;
        lemma_flex_sum_exact(env, m.children, init1, n);
        assert(m.children.take(n) =~= m.children);
        let st1 = pass1_state(env, m.children, init1, n);
        assert(st1.flex_sum == 0);
        let s1 = Seq::new(m.children.len(), |j: int| pass1_child(env, m.children[j]));
        assert(s1[i] == m.children[i]);
        let total_major = major_s(m.direction, bcw.max);
        let remaining = sub_floor_s(total_major, st1.major_non_flex);
        let init2 = Pass2 {
            rem: 0,
            major_flex: 0,
            minor: st1.minor,
            max_above: st1.max_above,
            max_below: st1.max_below,
            any_changed: st1.any_changed,
        };
        assert(pass2_child_at(env, remaining, st1.flex_sum, s1, init2, i) == Child::FlexedSpacer(
            0i64,
            0i64,
        ));
        assert(layout_spec(m, bc).0.children[i] == Child::FlexedSpacer(0i64, 0i64));
    }
}

/// Whether this child is an element that fills the cross axis.
pub open spec fn child_is_fill(cross: CrossAxisAlignment, ch: Child) -> bool {
    match ch {
        Child::Fixed { alignment, .. } => effective_alignment(cross, alignment)
            == CrossAxisAlignment::Fill,
        Child::Flex { alignment, .. } => effective_alignment(cross, alignment)
            == CrossAxisAlignment::Fill,
        _ => false,
    }
}

/// How a child that went through one whole layout relates to what it was
/// before: same variant and standing data, a clean element whose cached size
/// is what the fixed pass measured (or kept), and a fixed spacer resolved.
spec fn round_corresponds(env: LayoutEnv, sj: Child, tj: Child) -> bool {
    match sj {
        Child::Fixed { widget: w, alignment: al } => tj matches Child::Fixed {
            widget: w2,
            alignment: al2,
        } && al2 == al && w2.baseline == w.baseline && !w2.needs_layout && w2.size == (
        if fixed_measured(env, w) {
            env.loosened.constrain_s(w.preferred)
        } else {
            w.size
        }),
        Child::Flex { widget: w, alignment: al, flex: f } => tj matches Child::Flex {
            widget: w2,
            alignment: al2,
            flex: f2,
        } && al2 == al && f2 == f && w2.baseline == w.baseline && !w2.needs_layout,
        Child::FixedSpacer(l, _) => tj == Child::FixedSpacer(l, max_s(l, 0)),
        Child::FlexedSpacer(f, _) => tj matches Child::FlexedSpacer(f2, _) && f2 == f,
    }
}

/// A second fixed pass over already-laid-out children skips every element,
/// leaves the children as they are, and accumulates the same extents.
proof fn lemma_pass1_round2(
    env: LayoutEnv,
    env2: LayoutEnv,
    s: Seq<Child>,
    t: Seq<Child>,
    init: Pass1,
    init2: Pass1,
    i: int,
)
    requires
        0 <= i <= s.len(),
        t.len() == s.len(),
        env2.direction == env.direction,
        env2.loosened == env.loosened,
        !env2.bc_changed,
        !init2.any_changed,
        init2.major_non_flex == init.major_non_flex,
        init2.flex_sum == init.flex_sum,
        init2.minor == init.minor,
        init2.max_above == init.max_above,
        init2.max_below == init.max_below,
        forall|j: int| 0 <= j < s.len() ==> round_corresponds(env, s[j], #[trigger] t[j]),
    ensures
        ({
            let a = pass1_state(env, s, init, i);
            let b = pass1_state(env2, t, init2, i);
            &&& b.major_non_flex == a.major_non_flex
            &&& b.flex_sum == a.flex_sum
            &&& b.minor == a.minor
            &&& b.max_above == a.max_above
            &&& b.max_below == a.max_below
            &&& !b.any_changed
        }),
        forall|j: int| 0 <= j < i ==> pass1_child(env2, #[trigger] t[j]) == t[j],
    decreases i,
{
    if i > 0 {
        lemma_pass1_round2(env, env2, s, t, init, init2, i - 1);
        assert(round_corresponds(env, s[i - 1], t[i - 1]));
    }
}

/// A second flexible pass skips every element; without flexible elements the
/// remainder chain replays and grants every spacer the same length again,
/// and without flexible spacers nothing reads the remainder at all.
#[verifier::rlimit(100)]
proof fn lemma_pass2_state_round2(
    env: LayoutEnv,
    env2: LayoutEnv,
    remaining: i64,
    flex_sum: i64,
    s: Seq<Child>,
    t: Seq<Child>,
    init: Pass2,
    init2: Pass2,
    i: int,
)
    requires
        0 <= i <= s.len(),
        t.len() == s.len(),
        env2.direction == env.direction,
        env2.loosened == env.loosened,
        !init2.any_changed,
        init2.rem == init.rem,
        init2.major_flex == init.major_flex,
        init2.minor == init.minor,
        init2.max_above == init.max_above,
        init2.max_below == init.max_below,
        (forall|j: int| 0 <= j < s.len() ==> !(#[trigger] s[j] is FlexedSpacer)) || (forall|j: int|
            0 <= j < s.len() ==> !(#[trigger] s[j] is Flex)),
        forall|j: int|
            0 <= j < s.len() ==> pass2_result_matches(
                env,
                remaining,
                flex_sum,
                s,
                init,
                j,
                #[trigger] t[j],
            ),
    ensures
        ({
            let a = pass2_state(env, remaining, flex_sum, s, init, i);
            let b = pass2_state(env2, remaining, flex_sum, t, init2, i);
            &&& b.major_flex == a.major_flex
            &&& b.minor == a.minor
            &&& b.max_above == a.max_above
            &&& b.max_below == a.max_below
            &&& !b.any_changed
            &&& ((forall|j: int| 0 <= j < s.len() ==> !(#[trigger] s[j] is Flex)) ==> b.rem
                == a.rem)
        }),
    decreases i,
{
    if i > 0 {
        lemma_pass2_state_round2(env, env2, remaining, flex_sum, s, t, init, init2, i - 1);
        assert(pass2_result_matches(env, remaining, flex_sum, s, init, i - 1, t[i - 1]));
        let a0 = pass2_state(env, remaining, flex_sum, s, init, i - 1);
        let b0 = pass2_state(env2, remaining, flex_sum, t, init2, i - 1);
        assert(pass2_state(env, remaining, flex_sum, s, init, i) == pass2_step(
            env,
            remaining,
            flex_sum,
            a0,
            s[i - 1],
        ));
        assert(pass2_state(env2, remaining, flex_sum, t, init2, i) == pass2_step(
            env2,
            remaining,
            flex_sum,
            b0,
            t[i - 1],
        ));
        match s[i - 1] {
            Child::Flex { widget, alignment, flex } => {
                assert(!(s[i - 1] is FlexedSpacer));
            },
            Child::FlexedSpacer(f, _) => {
                assert(s[i - 1] is FlexedSpacer);
                assert(forall|j: int| 0 <= j < s.len() ==> !(#[trigger] s[j] is Flex));
                assert(b0.rem == a0.rem);
            },
            _ => {},
        }
    }
}

/// The child at `j` of a second flexible pass is unchanged.
#[verifier::rlimit(100)]
proof fn lemma_pass2_child_round2(
    env: LayoutEnv,
    env2: LayoutEnv,
    remaining: i64,
    flex_sum: i64,
    s: Seq<Child>,
    t: Seq<Child>,
    init: Pass2,
    init2: Pass2,
    j: int,
)
    requires
        0 <= j < s.len(),
        t.len() == s.len(),
        env2.direction == env.direction,
        env2.loosened == env.loosened,
        !init2.any_changed,
        init2.rem == init.rem,
        init2.major_flex == init.major_flex,
        init2.minor == init.minor,
        init2.max_above == init.max_above,
        init2.max_below == init.max_below,
        (forall|k: int| 0 <= k < s.len() ==> !(#[trigger] s[k] is FlexedSpacer)) || (forall|k: int|
            0 <= k < s.len() ==> !(#[trigger] s[k] is Flex)),
        forall|k: int|
            0 <= k < s.len() ==> pass2_result_matches(
                env,
                remaining,
                flex_sum,
                s,
                init,
                k,
                #[trigger] t[k],
            ),
    ensures
        pass2_child_at(env2, remaining, flex_sum, t, init2, j) == t[j],
{
    lemma_pass2_state_round2(env, env2, remaining, flex_sum, s, t, init, init2, j);
    assert(pass2_result_matches(env, remaining, flex_sum, s, init, j, t[j]));
    let a = pass2_state(env, remaining, flex_sum, s, init, j);
    let b = pass2_state(env2, remaining, flex_sum, t, init2, j);
    match s[j] {
        Child::FlexedSpacer(f, _) => {
            assert(s[j] is FlexedSpacer);
            assert(forall|k: int| 0 <= k < s.len() ==> !(#[trigger] s[k] is Flex));
            assert(b.rem == a.rem);
        },
        _ => {},
    }
}

/// How the child at `j` after the flexible pass relates to the same child a
/// round later: same standing data, same resolved size, clean.
spec fn pass2_result_matches(
    env: LayoutEnv,
    remaining: i64,
    flex_sum: i64,
    s: Seq<Child>,
    init: Pass2,
    j: int,
    tj: Child,
) -> bool {
    let s2j = pass2_child_at(env, remaining, flex_sum, s, init, j);
    match s2j {
        Child::Fixed { widget: w, alignment: al } => tj matches Child::Fixed {
            widget: w2,
            alignment: al2,
        } && al2 == al && w2.size == w.size && w2.baseline == w.baseline && !w2.needs_layout,
        Child::Flex { widget: w, alignment: al, flex: f } => tj matches Child::Flex {
            widget: w2,
            alignment: al2,
            flex: f2,
        } && al2 == al && f2 == f && w2.size == w.size && w2.baseline == w.baseline
            && !w2.needs_layout,
        Child::FixedSpacer(l, c) => tj == Child::FixedSpacer(l, c),
        Child::FlexedSpacer(f, c) => tj == Child::FlexedSpacer(f, c),
    }
}

/// Placing an already-placed element again, from the same cursor in the same
/// environment, changes nothing (fill alignment aside).
proof fn lemma_pass3_element_idem(
    env: Env3,
    cursor: i64,
    widget: Element,
    alignment: Option<CrossAxisAlignment>,
)
    requires
        effective_alignment(env.cross_default, alignment) != CrossAxisAlignment::Fill,
    ensures
        pass3_element(env, cursor, pass3_element(env, cursor, widget, alignment), alignment)
            == pass3_element(env, cursor, widget, alignment),
{
}

/// A second placement pass walks the same cursor chain.
#[verifier::rlimit(100)]
proof fn lemma_pass3_state_round2(env: Env3, s: Seq<Child>, t: Seq<Child>, init: Pass3, i: int)
    requires
        0 <= i <= s.len(),
        t.len() == s.len(),
        forall|j: int| 0 <= j < s.len() ==> #[trigger] t[j] == pass3_child_at(env, s, init, j),
        forall|j: int| 0 <= j < s.len() ==> !child_is_fill(env.cross_default, #[trigger] s[j]),
    ensures
        pass3_state(env, t, init, i) == pass3_state(env, s, init, i),
    decreases i,
{
    if i > 0 {
        lemma_pass3_state_round2(env, s, t, init, i - 1);
        assert(t[i - 1] == pass3_child_at(env, s, init, i - 1));
        assert(!child_is_fill(env.cross_default, s[i - 1]));
        assert(pass3_state(env, t, init, i) == pass3_step(
            env,
            pass3_state(env, t, init, i - 1),
            t[i - 1],
        ));
        assert(pass3_state(env, s, init, i) == pass3_step(
            env,
            pass3_state(env, s, init, i - 1),
            s[i - 1],
        ));
    }
}

/// The child at `j` of a second placement pass is unchanged.
#[verifier::rlimit(100)]
proof fn lemma_pass3_child_round2(env: Env3, s: Seq<Child>, t: Seq<Child>, init: Pass3, j: int)
    requires
        0 <= j < s.len(),
        t.len() == s.len(),
        forall|k: int| 0 <= k < s.len() ==> #[trigger] t[k] == pass3_child_at(env, s, init, k),
        forall|k: int| 0 <= k < s.len() ==> !child_is_fill(env.cross_default, #[trigger] s[k]),
    ensures
        pass3_child_at(env, t, init, j) == t[j],
{
    lemma_pass3_state_round2(env, s, t, init, j);
    assert(t[j] == pass3_child_at(env, s, init, j));
    let st = pass3_state(env, s, init, j);
    match s[j] {
        Child::Fixed { widget, alignment } => {
            lemma_pass3_element_idem(env, st.cursor, widget, alignment);
        },
        Child::Flex { widget, alignment, flex } => {
            lemma_pass3_element_idem(env, st.cursor, widget, alignment);
        },
        _ => {},
    }
}

/// Facts carried from one whole layout to the next about the child at `j`:
/// what the passes made of it, with its standing data intact.
#[verifier::rlimit(100)]
proof fn lemma_chain_facts(m: FlexModel, bc: BoxConstraints, j: int)
    requires
        m.wf(),
        bc.wf(),
        0 <= j < m.children.len(),
        !child_is_fill(m.cross_alignment, m.children[j]),
    ensures
        round_corresponds(stage_env(m, bc), m.children[j], stage_s3(m, bc)[j]),
        pass2_result_matches(
            stage_env(m, bc),
            stage_remaining(m, bc),
            stage_st1(m, bc).flex_sum,
            stage_s1(m, bc),
            stage_init2(m, bc),
            j,
            stage_s3(m, bc)[j],
        ),
        child_uses_baseline(m.cross_alignment, stage_s3(m, bc)[j]) == child_uses_baseline(
            m.cross_alignment,
            m.children[j],
        ),
        (stage_s3(m, bc)[j] is Flex) == (m.children[j] is Flex),
        (stage_s3(m, bc)[j] is FlexedSpacer) == (m.children[j] is FlexedSpacer),
        (stage_s1(m, bc)[j] is Flex) == (m.children[j] is Flex),
        (stage_s1(m, bc)[j] is FlexedSpacer) == (m.children[j] is FlexedSpacer),
        !child_is_fill(m.cross_alignment, stage_s2(m, bc)[j]),
{
    let env = stage_env(m, bc);
    let n = m.children.len();
    let st1 = stage_st1(m, bc);
    let s1 = stage_s1(m, bc);
    let remaining = stage_remaining(m, bc);
    let init2 = stage_init2(m, bc);
    let s2 = stage_s2(m, bc);
    let env3 = stage_env3(m, bc);
    let init3 = stage_init3(m, bc);
    let s3 = stage_s3(m, bc);
    let s1j = pass1_child(env, m.children[j]);
    let st2j = pass2_state(env, remaining, st1.flex_sum, s1, init2, j);
    let s2j = pass2_child(env, remaining, st1.flex_sum, st2j, s1[j]);
    let st3j = pass3_state(env3, s2, init3, j);
    assert(s1[j] == s1j);
    assert(s2[j] == s2j);
    assert(s3[j] == pass3_child(env3, st3j, s2[j]));
    match m.children[j] {
        Child::Fixed { widget, alignment } => {
            assert(s2j == s1j);
            assert(effective_alignment(m.cross_alignment, alignment) != CrossAxisAlignment::Fill);
            if fixed_measured(env, widget) {
            } else {
                assert(!widget.needs_layout);
            }
        },
        Child::Flex { widget, alignment, flex } => {
            assert(s1j == m.children[j]);
            assert(effective_alignment(m.cross_alignment, alignment) != CrossAxisAlignment::Fill);
            if st2j.any_changed || widget.needs_layout {
            } else {
                assert(!widget.needs_layout);
            }
        },
        Child::FixedSpacer(l, c) => {
            assert(s1j == Child::FixedSpacer(l, max_s(l, 0)));
            assert(s2j == s1j);
            assert(s3[j] == s2j);
        },
        Child::FlexedSpacer(f, c) => {
            assert(s1j == m.children[j]);
            assert(s3[j] == s2j);
        },
    }
}

/// The second round of layout runs in the same environments over the same
/// granted lengths.
#[verifier::rlimit(100)]
proof fn lemma_second_round_setup(m: FlexModel, bc: BoxConstraints)
    requires
        m.wf(),
        bc.wf(),
        forall|j: int|
            0 <= j < m.children.len() ==> !child_is_fill(
                m.cross_alignment,
                #[trigger] m.children[j],
            ),
    ensures
        ({
            let m1 = layout_spec(m, bc).0;
            &&& m1.children == stage_s3(m, bc)
            &&& working_bc(m1, bc) == working_bc(m, bc)
            &&& stage_env(m1, bc) == (LayoutEnv { bc_changed: false, ..stage_env(m, bc) })
            &&& resolved_gap(m1) == resolved_gap(m)
        }),
{
    let m1 = layout_spec(m, bc).0;
    assert(m1.children == stage_s3(m, bc));
    assert(working_bc(m1, bc) == working_bc(m, bc));
    assert(m1.old_bc == working_bc(m, bc));
}

/// After one layout, a second fixed pass under the same constraints skips
/// every element and rebuilds the same totals.
#[verifier::rlimit(100)]
proof fn lemma_sr_pass1(m: FlexModel, bc: BoxConstraints)
    requires
        m.wf(),
        bc.wf(),
        forall|j: int|
            0 <= j < m.children.len() ==> !child_is_fill(
                m.cross_alignment,
                #[trigger] m.children[j],
            ),
    ensures
        ({
            let m1 = layout_spec(m, bc).0;
            let st1 = stage_st1(m, bc);
            let st1_b = stage_st1(m1, bc);
            &&& m1.children == stage_s3(m, bc)
            &&& working_bc(m1, bc) == working_bc(m, bc)
            &&& resolved_gap(m1) == resolved_gap(m)
            &&& stage_env(m1, bc) == (LayoutEnv { bc_changed: false, ..stage_env(m, bc) })
            &&& st1_b.major_non_flex == st1.major_non_flex
            &&& st1_b.flex_sum == st1.flex_sum
            &&& st1_b.minor == st1.minor
            &&& st1_b.max_above == st1.max_above
            &&& st1_b.max_below == st1.max_below
            &&& !st1_b.any_changed
            &&& stage_s1(m1, bc) == stage_s3(m, bc)
            &&& stage_remaining(m1, bc) == stage_remaining(m, bc)
            &&& stage_init2(m1, bc) == (Pass2 { any_changed: false, ..stage_init2(m, bc) })
        }),
{
    let n = m.children.len();
    let bcw = working_bc(m, bc);
    let env = stage_env(m, bc);
    let st1 = stage_st1(m, bc);
    let s3 = stage_s3(m, bc);
    let m1 = layout_spec(m, bc).0;
    lemma_second_round_setup(m, bc);
    assert forall|j: int| 0 <= j < n implies round_corresponds(
        env,
        m.children[j],
        #[trigger] s3[j],
    ) by {
        lemma_chain_facts(m, bc, j);
    }
    let env_b = stage_env(m1, bc);
    assert(env_b == (LayoutEnv { bc_changed: false, ..env }));
    let init1 = pass1_init(m, bcw, m.old_bc != bcw);
    let init1_b = pass1_init(m1, bcw, false);
    assert(init1_b.major_non_flex == init1.major_non_flex);
    assert(init1_b.minor == init1.minor);
    assert(!init1_b.any_changed);
    lemma_pass1_round2(env, env_b, m.children, s3, init1, init1_b, n as int);
    assert(stage_st1(m1, bc) == pass1_state(env_b, s3, init1_b, n as int));
    assert(stage_s1(m1, bc) =~= s3);
}

/// After one layout, a second flexible pass under the same constraints
/// leaves every child as it is and rebuilds the same totals.
#[verifier::rlimit(100)]
proof fn lemma_sr_pass2(m: FlexModel, bc: BoxConstraints)
    requires
        m.wf(),
        bc.wf(),
        forall|j: int|
            0 <= j < m.children.len() ==> !child_is_fill(
                m.cross_alignment,
                #[trigger] m.children[j],
            ),
        (forall|j: int| 0 <= j < m.children.len() ==> !(#[trigger] m.children[j] is FlexedSpacer))
            || (forall|j: int| 0 <= j < m.children.len() ==> !(#[trigger] m.children[j] is Flex)),
    ensures
        ({
            let m1 = layout_spec(m, bc).0;
            let st2 = stage_st2(m, bc);
            let st2_b = stage_st2(m1, bc);
            &&& st2_b.major_flex == st2.major_flex
            &&& st2_b.minor == st2.minor
            &&& st2_b.max_above == st2.max_above
            &&& st2_b.max_below == st2.max_below
            &&& stage_s2(m1, bc) == stage_s3(m, bc)
            &&& stage_env3(m1, bc) == stage_env3(m, bc)
            &&& stage_init3(m1, bc) == stage_init3(m, bc)
        }),
{
    let n = m.children.len();
    let env = stage_env(m, bc);
    let st1 = stage_st1(m, bc);
    let s1 = stage_s1(m, bc);
    let remaining = stage_remaining(m, bc);
    let init2 = stage_init2(m, bc);
    let st2 = stage_st2(m, bc);
    let s3 = stage_s3(m, bc);
    let m1 = layout_spec(m, bc).0;
    lemma_sr_pass1(m, bc);
    assert forall|j: int| 0 <= j < n implies {
        &&& pass2_result_matches(env, remaining, st1.flex_sum, s1, init2, j, #[trigger] s3[j])
        &&& (s1[j] is Flex) == (m.children[j] is Flex)
        &&& (s1[j] is FlexedSpacer) == (m.children[j] is FlexedSpacer)
        &&& child_uses_baseline(m.cross_alignment, s3[j]) == child_uses_baseline(
            m.cross_alignment,
            m.children[j],
        )
    } by {
        lemma_chain_facts(m, bc, j);
    }
    let env_b = stage_env(m1, bc);
    let init2_b = stage_init2(m1, bc);
    if forall|j: int| 0 <= j < n ==> !(#[trigger] m.children[j] is FlexedSpacer) {
        assert(forall|j: int| 0 <= j < n ==> !(#[trigger] s1[j] is FlexedSpacer));
    } else {
        assert(forall|j: int| 0 <= j < n ==> !(#[trigger] m.children[j] is Flex));
        assert(forall|j: int| 0 <= j < n ==> !(#[trigger] s1[j] is Flex));
    }
    lemma_pass2_state_round2(env, env_b, remaining, st1.flex_sum, s1, s3, init2, init2_b, n as int);
    assert(stage_st2(m1, bc) == pass2_state(env_b, remaining, st1.flex_sum, s3, init2_b, n as int))
        by {
        assert(stage_s1(m1, bc) == s3);
    }
    let s2_b = stage_s2(m1, bc);
    assert forall|j: int| 0 <= j < n implies #[trigger] s2_b[j] == s3[j] by {
        lemma_pass2_child_round2(env, env_b, remaining, st1.flex_sum, s1, s3, init2, init2_b, j);
        assert(stage_s1(m1, bc) == s3);
    }
    assert(s2_b =~= s3);
    assert(stage_extra(m1, bc) == stage_extra(m, bc));
    assert(uses_baseline(m1.cross_alignment, m1.children) == uses_baseline(
        m.cross_alignment,
        m.children,
    )) by {
        if uses_baseline(m.cross_alignment, m.children) {
            let w = choose|j: int|
                0 <= j < n && child_uses_baseline(m.cross_alignment, m.children[j]);
            assert(child_uses_baseline(m.cross_alignment, s3[w]));
        }
        if uses_baseline(m1.cross_alignment, m1.children) {
            let w = choose|j: int|
                0 <= j < m1.children.len() && child_uses_baseline(
                    m1.cross_alignment,
                    m1.children[j],
                );
            assert(child_uses_baseline(m.cross_alignment, m.children[w]));
        }
    }
    assert(stage_minor_dim(m1, bc) == stage_minor_dim(m, bc));
    assert(stage_env3(m1, bc) == stage_env3(m, bc));
}

/// After one layout, a second one under the same constraints rebuilds the
/// same pass states and the same children.
#[verifier::rlimit(100)]
proof fn lemma_second_round_state(m: FlexModel, bc: BoxConstraints)
    requires
        m.wf(),
        bc.wf(),
        forall|j: int|
            0 <= j < m.children.len() ==> !child_is_fill(
                m.cross_alignment,
                #[trigger] m.children[j],
            ),
        (forall|j: int| 0 <= j < m.children.len() ==> !(#[trigger] m.children[j] is FlexedSpacer))
            || (forall|j: int| 0 <= j < m.children.len() ==> !(#[trigger] m.children[j] is Flex)),
    ensures
        ({
            let m1 = layout_spec(m, bc).0;
            &&& m1.children == stage_s3(m, bc)
            &&& working_bc(m1, bc) == working_bc(m, bc)
            &&& resolved_gap(m1) == resolved_gap(m)
            &&& stage_st1(m1, bc).flex_sum == stage_st1(m, bc).flex_sum
            &&& stage_st2(m1, bc).max_below == stage_st2(m, bc).max_below
            &&& stage_minor_dim(m1, bc) == stage_minor_dim(m, bc)
            &&& stage_st3(m1, bc) == stage_st3(m, bc)
            &&& stage_s3(m1, bc) == stage_s3(m, bc)
        }),
{
    let n = m.children.len();
    let env3 = stage_env3(m, bc);
    let init3 = stage_init3(m, bc);
    let s2 = stage_s2(m, bc);
    let s3 = stage_s3(m, bc);
    let m1 = layout_spec(m, bc).0;
    lemma_sr_pass1(m, bc);
    lemma_sr_pass2(m, bc);
    assert forall|j: int| 0 <= j < n implies !child_is_fill(
        m.cross_alignment,
        #[trigger] s2[j],
    ) by {
        lemma_chain_facts(m, bc, j);
    }
    lemma_pass3_state_round2(env3, s2, s3, init3, n as int);
    assert(stage_st3(m1, bc) == pass3_state(env3, s3, init3, n as int)) by {
        assert(stage_s2(m1, bc) == s3);
        assert(stage_env3(m1, bc) == env3);
        assert(stage_init3(m1, bc) == init3);
    }
    assert(stage_st3(m1, bc) == stage_st3(m, bc));
    let s3_b = stage_s3(m1, bc);
    assert forall|j: int| 0 <= j < n implies #[trigger] s3_b[j] == s3[j] by {
        lemma_pass3_child_round2(env3, s2, s3, init3, j);
        assert(stage_s2(m1, bc) == s3);
        assert(stage_env3(m1, bc) == env3);
        assert(stage_init3(m1, bc) == init3);
    }
    assert(s3_b =~= s3);
    assert(stage_minor_dim(m1, bc) == stage_minor_dim(m, bc));
}

/// Laying out twice in succession under the same constraints, with no
/// mutation in between, returns the same output and leaves the container in
/// the same state: the skip paths reproduce the measure paths exactly.
///
/// Two families of inputs genuinely drift and are excluded: a fill-aligned
/// element (placement rewrites its cache against the pass's cross extent),
/// and a container mixing flexible elements with flexible spacers (a skipped
/// element does not advance the shared rounding remainder that a spacer
/// re-reads).
#[verifier::rlimit(100)]
pub proof fn lemma_layout_idempotent(m: FlexModel, bc: BoxConstraints)
    requires
        m.wf(),
        bc.wf(),
        forall|j: int|
            0 <= j < m.children.len() ==> !child_is_fill(
                m.cross_alignment,
                #[trigger] m.children[j],
            ),
        (forall|j: int| 0 <= j < m.children.len() ==> !(#[trigger] m.children[j] is FlexedSpacer))
            || (forall|j: int| 0 <= j < m.children.len() ==> !(#[trigger] m.children[j] is Flex)),
    ensures
        layout_spec(layout_spec(m, bc).0, bc) == layout_spec(m, bc),
{
    let m1 = layout_spec(m, bc).0;
    lemma_second_round_state(m, bc);
    assert(m1.children.len() == m.children.len());
    assert(stage_output(m1, bc) == stage_output(m, bc));
    assert(layout_spec(m1, bc).0 == m1);
    assert(layout_spec(m1, bc).1 == layout_spec(m, bc).1);
}

/// A dirty container serves no stale cache: once `needs_layout` is set — as
/// every mutation sets it — the next layout measures every flexible element
/// afresh with its newly granted share, and measures every dirty fixed
/// element afresh.
pub proof fn lemma_dirty_remeasures(m: FlexModel, bc: BoxConstraints, i: int)
    requires
        m.wf(),
        bc.wf(),
        m.needs_layout,
        0 <= i < m.children.len(),
    ensures
        ({
            let env = stage_env(m, bc);
            let st1 = stage_st1(m, bc);
            let s1 = stage_s1(m, bc);
            let remaining = stage_remaining(m, bc);
            let init2 = stage_init2(m, bc);
            match m.children[i] {
                Child::Flex { widget, alignment, flex } => stage_s2(m, bc)[i] == (Child::Flex {
                    widget: Element {
                        size: constraints_s(
                            m.direction,
                            env.loosened,
                            0,
                            flex_grant(
                                remaining,
                                st1.flex_sum,
                                flex,
                                pass2_state(env, remaining, st1.flex_sum, s1, init2, i).rem,
                            ).0,
                        ).constrain_s(widget.preferred),
                        needs_layout: false,
                        ..widget
                    },
                    alignment,
                    flex,
                }),
                Child::Fixed { widget, alignment } => widget.needs_layout ==> stage_s1(m, bc)[i]
                    == (Child::Fixed {
                    widget: Element {
                        size: env.loosened.constrain_s(widget.preferred),
                        needs_layout: false,
                        ..widget
                    },
                    alignment,
                }),
                _ => true,
            }
        }),
{
    let bcw = working_bc(m, bc);
    let env = stage_env(m, bc);
    let init1 = pass1_init(m, bcw, m.old_bc != bcw);
    let n = m.children.len() as int;
    lemma_pass1_any_changed_monotone(env, m.children, init1, n);
    let st1 = stage_st1(m, bc);
    let s1 = stage_s1(m, bc);
    let remaining = stage_remaining(m, bc);
    let init2 = stage_init2(m, bc);
    lemma_pass2_any_changed_monotone(env, remaining, st1.flex_sum, s1, init2, i);
    if m.children[i] is Flex {
        assert(s1[i] == m.children[i]);
    }
}


impl Flex {
    /// Lay the container out under the given envelope.
    ///
    /// One call runs the whole solve in order: the envelope is reduced by
    /// border and padding and loosened; fixed children and spacers are
    /// measured (or their caches reused when nothing changed); the leftover
    /// major-axis space is divided among flexible children by weight with a
    /// carried rounding remainder; the alignment policy turns the extra
    /// space into gaps; every child is placed; and the container's own size
    /// and baseline come out.  The call equals [`layout_spec`] on the
    /// container's abstract value, and always yields a result: no input
    /// divides by zero or panics.
    #[verifier::rlimit(100)]
    pub fn layout(&mut self, bc: &BoxConstraints) -> (r: LayoutOutput)
        requires
            old(self).wf(),
            bc.wf(),
        ensures
            final(self).wf(),
            final(self).model() == layout_spec(old(self).model(), *bc).0,
            r == layout_spec(old(self).model(), *bc).1,
    {
        let ghost m = old(self).model();
        let pad_w: i64 = self.padding.left + self.padding.right;
        let pad_h: i64 = self.padding.top + self.padding.bottom;
        let bc1 = bc.shrink(2 * self.border, 2 * self.border);
        let bcw = bc1.shrink(pad_w, pad_h);
        proof {
            assert(bcw == working_bc(m, *bc));
        }
        let bc_changed: bool = !(self.old_bc == bcw);
        self.old_bc = bcw;
        let loosened = bcw.loosen();
        let env = LayoutEnv {
            direction: self.direction,
            cross_default: self.cross_alignment,
            loosened,
            bc_changed,
        };
        let gap: i64 = match self.gap {
            Some(g) => g,
            None => axis_default_spacer(self.direction),
        };
        let n: usize = self.children.len();
        let total_gap: i64 = if n == 0 {
            0
        } else {
            proof {
                assert(gap * (n - 1) <= LIMIT * LIMIT) by (nonlinear_arith)
                    requires
                        0 <= gap <= LIMIT,
                        0 <= n - 1 <= LIMIT,
                ;
                assert(gap * (n - 1) >= 0) by (nonlinear_arith)
                    requires
                        0 <= gap,
                        0 <= n - 1,
                ;
            }
            gap * ((n - 1) as i64)
        };

        // whether any child asks for baseline alignment, before anything moves
        let mut any_base: bool = false;
        let mut i: usize = 0;
        while i < n
            invariant
                n == self.children@.len(),
                i <= n,
                self.children@ == m.children,
                self.cross_alignment == m.cross_alignment,
                any_base == exists|j: int|
                    0 <= j < i && child_uses_baseline(m.cross_alignment, m.children[j]),
            decreases n - i,
        {
            let uses: bool = match &self.children[i] {
                Child::Fixed { alignment, .. } => match alignment {
                    Some(a) => *a == CrossAxisAlignment::Baseline,
                    None => self.cross_alignment == CrossAxisAlignment::Baseline,
                },
                Child::Flex { alignment, .. } => match alignment {
                    Some(a) => *a == CrossAxisAlignment::Baseline,
                    None => self.cross_alignment == CrossAxisAlignment::Baseline,
                },
                _ => false,
            };
            proof {
                assert(uses == child_uses_baseline(m.cross_alignment, m.children[i as int]));
            }
            if uses {
                any_base = true;
            }
            i = i + 1;
        }
        proof {
            assert(any_base == uses_baseline(m.cross_alignment, m.children));
        }

        // pass 1: fixed children and spacers
        proof {
            assert(gap == resolved_gap(m));
            assert(total_gap == total_gap_spec(resolved_gap(m), m.children.len()));
        }
        let init1 = Pass1 {
            major_non_flex: total_gap,
            flex_sum: 0,
            minor: self.direction.minor(bcw.min()),
            max_above: 0,
            max_below: 0,
            any_changed: bc_changed || self.needs_layout,
        };
        self.needs_layout = false;
        proof {
            assert(init1 == pass1_init(m, bcw, bc_changed));
        }
        let st1 = run_pass1(&mut self.children, env, init1);
        let ghost s1 = Seq::new(m.children.len(), |j: int| pass1_child(env, m.children[j]));

        // pass 2: flexible children and spacers
        let total_major: i64 = self.direction.major(bcw.max());
        let remaining: i64 = sub_floor(total_major, st1.major_non_flex);
        proof {
            assert(st1.flex_sum <= LIMIT * LIMIT) by (nonlinear_arith)
                requires
                    st1.flex_sum <= m.children.len() * LIMIT,
                    m.children.len() <= LIMIT,
                    LIMIT >= 1,
            ;
            assert forall|j: int| 0 <= j < s1.len() implies (match #[trigger] s1[j] {
                Child::Flex { flex, .. } => st1.flex_sum >= flex,
                Child::FlexedSpacer(f, _) => st1.flex_sum >= f,
                _ => true,
            }) by {
                lemma_flex_sum_ge(env, m.children, init1, j, m.children.len() as int);
                assert(s1[j] == pass1_child(env, m.children[j]));
            }
        }
        let init2 = Pass2 {
            rem: 0,
            major_flex: 0,
            minor: st1.minor,
            max_above: st1.max_above,
            max_below: st1.max_below,
            any_changed: st1.any_changed,
        };
        let st2 = run_pass2(&mut self.children, env, remaining, st1.flex_sum, init2);
        let ghost s2 = Seq::new(
            m.children.len(),
            |j: int| pass2_child_at(env, remaining, st1.flex_sum, s1, init2, j),
        );

        // extra space and the cross-axis resolution size
        let extra: i64;
        if self.fill_major_axis {
            if remaining == UNBOUNDED || st2.major_flex == UNBOUNDED {
                extra = 0;
            } else {
                let d: i64 = remaining - st2.major_flex;
                extra = if d < 0 {
                    0
                } else {
                    d
                };
            }
        } else {
            let used: i64 = sat_add(st1.major_non_flex, st2.major_flex);
            if used == UNBOUNDED {
                extra = 0;
            } else {
                let min_major: i64 = self.direction.major(bcw.min());
                let d: i64 = min_major - used;
                extra = if d < 0 {
                    0
                } else {
                    d
                };
            }
        }
        proof {
            assert(extra == extra_space(
                m.fill_major_axis,
                remaining,
                major_s(m.direction, bcw.min),
                st1.major_non_flex,
                st2.major_flex,
            ));
        }
        let minor_dim: i64 = if matches!(self.direction, Axis::Horizontal) && any_base {
            sat_add(st2.max_below, st2.max_above)
        } else {
            st2.minor
        };
        let extra_height: i64 = sat_sub(st2.minor, len_min(minor_dim, st2.minor));
        let env3 = Env3 {
            direction: self.direction,
            cross_default: self.cross_alignment,
            main_alignment: self.main_alignment,
            extra,
            n_children: n,
            gap,
            minor_dim,
            extra_height,
            max_above: st2.max_above,
            off_x: sat_add(self.border, self.padding.left),
            off_y: sat_add(self.border, self.padding.top),
        };

        // placement
        let cursor: i64 = run_pass3(&mut self.children, env3);
        let ghost init3 = Pass3 { cursor: gap_at(env3, 0), sp_index: 1 };
        let ghost s3 = Seq::new(m.children.len(), |j: int| pass3_child_at(env3, s2, init3, j));

        // the container's own size and baseline
        let content_major: i64 = if n > 0 {
            if cursor == UNBOUNDED {
                UNBOUNDED
            } else {
                sat_sub(cursor, gap)
            }
        } else {
            cursor
        };
        let final_major: i64 = if st1.flex_sum > 0 {
            total_major
        } else {
            content_major
        };
        let p = self.direction.pack(final_major, minor_dim);
        let my_size = Size::new(p.0, p.1);
        let baseline0: i64 = match self.direction {
            Axis::Horizontal => st2.max_below,
            Axis::Vertical => {
                if n == 0 {
                    0
                } else {
                    let last = self.children[n - 1];
                    match last {
                        Child::Fixed { widget, .. } => {
                            let max_y = sat_add(widget.origin.y, widget.size.height);
                            sat_add(widget.baseline, sat_sub(my_size.height, max_y))
                        },
                        Child::Flex { widget, .. } => {
                            let max_y = sat_add(widget.origin.y, widget.size.height);
                            sat_add(widget.baseline, sat_sub(my_size.height, max_y))
                        },
                        _ => 0,
                    }
                }
            },
        };
        let size_up = Size::new(
            sat_add(sat_add(my_size.width, pad_w), 2 * self.border),
            sat_add(sat_add(my_size.height, pad_h), 2 * self.border),
        );
        let baseline_up: i64 = sat_add(sat_add(baseline0, self.padding.bottom), self.border);
        let out = LayoutOutput { size: size_up, baseline: baseline_up };
        proof {
            let lr = layout_spec(m, *bc);
            assert(self.children@ == s3);
            assert(self.model() == lr.0);
            assert(out == lr.1);
        }
        out
    }
}

} // verus!
