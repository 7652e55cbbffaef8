//! A leaf box that the container lays out: it has an intrinsic preferred
//! size and a baseline, and caches the size and origin from its last layout
//! so an unchanged child can be skipped.

use vstd::prelude::*;

use crate::constraints::BoxConstraints;
use crate::geom::{Point, Rect, Size, LIMIT};

verus! {

/// A child element: what the layout context measures and places.
///
/// Measuring clamps the element's preferred size into the offered envelope;
/// the result and the placed origin are cached, and `needs_layout` says
/// whether the cache may be reused.
#[derive(Clone, Copy, Debug)]
pub struct Element {
    /// Identity, for callers that track elements across mutations.
    pub id: u64,
    /// The size the element takes when unconstrained.
    pub preferred: Size,
    /// Distance from the element's bottom edge to its baseline.
    pub baseline: i64,
    /// Whether the cached size is stale.
    pub needs_layout: bool,
    /// The size from the last measurement.
    pub size: Size,
    /// The origin from the last placement.
    pub origin: Point,
}

impl Element {
    /// Intrinsic data is caller-sized and the cached size never goes
    /// negative.
    pub open spec fn wf(self) -> bool {
        &&& self.preferred.within_limit()
        &&& 0 <= self.baseline <= LIMIT
        &&& self.size.non_negative()
    }

    /// A fresh element: dirty, with empty caches.
    pub fn new(preferred: Size, baseline: i64) -> (r: Self)
        requires
            preferred.within_limit(),
            0 <= baseline <= LIMIT,
        ensures
            r == (Element {
                id: 0,
                preferred,
                baseline,
                needs_layout: true,
                size: Size { width: 0, height: 0 },
                origin: Point { x: 0, y: 0 },
            }),
            r.wf(),
    {
        Element {
            id: 0,
            preferred,
            baseline,
            needs_layout: true,
            size: Size { width: 0, height: 0 },
            origin: Point { x: 0, y: 0 },
        }
    }

    /// A fresh element with a caller-chosen identity.
    pub fn new_with_id(preferred: Size, baseline: i64, id: u64) -> (r: Self)
        requires
            preferred.within_limit(),
            0 <= baseline <= LIMIT,
        ensures
            r == (Element { id, ..Element::new_spec(preferred, baseline) }),
            r.wf(),
    {
        Element { id, ..Element::new(preferred, baseline) }
    }

    /// The spec-level value of [`Element::new`].
    pub open spec fn new_spec(preferred: Size, baseline: i64) -> Element {
        Element {
            id: 0,
            preferred,
            baseline,
            needs_layout: true,
            size: Size { width: 0, height: 0 },
            origin: Point { x: 0, y: 0 },
        }
    }

    /// Measure against an envelope: the preferred size clamped into it.
    /// The result is cached and the element marked clean.
    pub fn measure(&mut self, bc: &BoxConstraints) -> (r: Size)
        ensures
            r == bc.constrain_s(old(self).preferred),
            *final(self) == (Element { size: r, needs_layout: false, ..*old(self) }),
    {
        let size = bc.constrain(self.preferred);
        self.size = size;
        self.needs_layout = false;
        size
    }

    /// The cached size from the last measurement, for the skip path.
    pub fn last_size(&self) -> (r: Size)
        ensures
            r == self.size,
    {
        self.size
    }

    /// The element's baseline offset: distance from its bottom edge.
    pub fn baseline_offset(&self) -> (r: i64)
        ensures
            r == self.baseline,
    {
        self.baseline
    }

    /// Record where the element was placed.
    pub fn place(&mut self, origin: Point)
        ensures
            *final(self) == (Element { origin, ..*old(self) }),
    {
        self.origin = origin;
    }

    /// The rectangle the element occupied after its last layout.
    pub fn layout_rect(&self) -> (r: Rect)
        ensures
            r == Rect::from_origin_size_spec(self.origin, self.size),
    {
        Rect::from_origin_size(self.origin, self.size)
    }

    /// Mark the element dirty, forcing the next layout to re-measure it.
    pub fn request_layout(&mut self)
        ensures
            *final(self) == (Element { needs_layout: true, ..*old(self) }),
    {
        self.needs_layout = true;
    }
}

} // verus!
