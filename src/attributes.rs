//! The attributes that define a pattern, each one optional until resolved.
//!
//! Real quantities are fixed-point integers: a stored value `v` stands for
//! `v / FIXED_ONE` user units.
use vstd::prelude::*;

verus! {

/// The fixed-point denominator: `FIXED_ONE` stands for 1.0.
pub const FIXED_ONE: i64 = 1000;

/// Selects the coordinate system of a set of pattern quantities.
#[derive(Clone, Copy, Debug, PartialEq, Eq, Structural)]
pub enum CoordUnits {
    UserSpaceOnUse,
    ObjectBoundingBox,
}

/// A logical viewport rectangle.
#[derive(Clone, Copy, Debug, PartialEq, Eq, Structural)]
pub struct ViewBox {
    pub x: i64,
    pub y: i64,
    pub width: i64,
    pub height: i64,
}

/// The three states of a pattern's viewBox.
#[derive(Clone, Copy, Debug, PartialEq, Eq, Structural)]
pub enum ViewBoxState {
    /// Not resolved yet.
    Unresolved,
    /// Resolved, and no viewBox is given.
    Absent,
    /// Resolved to a concrete viewBox.
    Present(ViewBox),
}

/// How the viewBox is aligned inside the tile.
#[derive(Clone, Copy, Debug, PartialEq, Eq, Structural)]
pub enum Align {
    NoAlign,
    XMinYMin,
    XMidYMin,
    XMaxYMin,
    XMinYMid,
    XMidYMid,
    XMaxYMid,
    XMinYMax,
    XMidYMax,
    XMaxYMax,
}

/// The `preserveAspectRatio` policy.
#[derive(Clone, Copy, Debug, PartialEq, Eq, Structural)]
pub struct AspectRatio {
    pub defer: bool,
    pub align: Align,
    /// `true` for "slice", `false` for "meet".
    pub slice: bool,
}

/// An affine matrix in the backend's layout, with fixed-point entries.
#[derive(Clone, Copy, Debug, PartialEq, Eq, Structural)]
pub struct Transform {
    pub xx: i64,
    pub yx: i64,
    pub xy: i64,
    pub yy: i64,
    pub x0: i64,
    pub y0: i64,
}

/// The pattern-defining fields; `None` (or `Unresolved`) means "not set yet".
#[derive(Clone, Copy, Debug, PartialEq, Eq, Structural)]
pub struct Common {
    pub units: Option<CoordUnits>,
    pub content_units: Option<CoordUnits>,
    pub view_box: ViewBoxState,
    pub preserve_aspect_ratio: Option<AspectRatio>,
    pub transform: Option<Transform>,
    pub x: Option<i64>,
    pub y: Option<i64>,
    pub width: Option<i64>,
    pub height: Option<i64>,
}

pub open spec fn spec_identity() -> Transform {
    Transform { xx: FIXED_ONE as i64, yx: 0, xy: 0, yy: FIXED_ONE as i64, x0: 0, y0: 0 }
}

pub open spec fn spec_default_aspect_ratio() -> AspectRatio {
    AspectRatio { defer: false, align: Align::XMidYMid, slice: false }
}

/// A record with no field set.
pub open spec fn spec_unset_common() -> Common {
    Common {
        units: None,
        content_units: None,
        view_box: ViewBoxState::Unresolved,
        preserve_aspect_ratio: None,
        transform: None,
        x: None,
        y: None,
        width: None,
        height: None,
    }
}

/// The value each field takes when nothing in a chain sets it.
pub open spec fn spec_default_common() -> Common {
    Common {
        units: Some(CoordUnits::ObjectBoundingBox),
        content_units: Some(CoordUnits::UserSpaceOnUse),
        view_box: ViewBoxState::Absent,
        preserve_aspect_ratio: Some(spec_default_aspect_ratio()),
        transform: Some(spec_identity()),
        x: Some(0),
        y: Some(0),
        width: Some(0),
        height: Some(0),
    }
}

pub open spec fn opt_or<T>(a: Option<T>, b: Option<T>) -> Option<T> {
    if a is Some { a } else { b }
}

pub open spec fn view_box_or(a: ViewBoxState, b: ViewBoxState) -> ViewBoxState {
    if a is Unresolved { b } else { a }
}

impl Common {
    /// Every field set.
    pub open spec fn spec_is_complete(self) -> bool {
        &&& self.units is Some
        &&& self.content_units is Some
        &&& !(self.view_box is Unresolved)
        &&& self.preserve_aspect_ratio is Some
        &&& self.transform is Some
        &&& self.x is Some
        &&& self.y is Some
        &&& self.width is Some
        &&& self.height is Some
    }

    /// Fieldwise: the field of `self` where set, else the field of `other`.
    pub open spec fn spec_or(self, other: Common) -> Common {
        Common {
            units: opt_or(self.units, other.units),
            content_units: opt_or(self.content_units, other.content_units),
            view_box: view_box_or(self.view_box, other.view_box),
            preserve_aspect_ratio: opt_or(self.preserve_aspect_ratio, other.preserve_aspect_ratio),
            transform: opt_or(self.transform, other.transform),
            x: opt_or(self.x, other.x),
            y: opt_or(self.y, other.y),
            width: opt_or(self.width, other.width),
            height: opt_or(self.height, other.height),
        }
    }

    /// Every field set in `self` has the same value in `r`.
    pub open spec fn spec_kept_in(self, r: Common) -> bool {
        &&& self.units is Some ==> r.units == self.units
        &&& self.content_units is Some ==> r.content_units == self.content_units
        &&& !(self.view_box is Unresolved) ==> r.view_box == self.view_box
        &&& self.preserve_aspect_ratio is Some ==> r.preserve_aspect_ratio
            == self.preserve_aspect_ratio
        &&& self.transform is Some ==> r.transform == self.transform
        &&& self.x is Some ==> r.x == self.x
        &&& self.y is Some ==> r.y == self.y
        &&& self.width is Some ==> r.width == self.width
        &&& self.height is Some ==> r.height == self.height
    }

    /// Every field unset in `self` but set in `fallback` has the value of
    /// `fallback` in `r`.
    pub open spec fn spec_filled_in(self, fallback: Common, r: Common) -> bool {
        &&& self.units is None && fallback.units is Some ==> r.units == fallback.units
        &&& self.content_units is None && fallback.content_units is Some ==> r.content_units
            == fallback.content_units
        &&& self.view_box is Unresolved && !(fallback.view_box is Unresolved) ==> r.view_box
            == fallback.view_box
        &&& self.preserve_aspect_ratio is None && fallback.preserve_aspect_ratio is Some
            ==> r.preserve_aspect_ratio == fallback.preserve_aspect_ratio
        &&& self.transform is None && fallback.transform is Some ==> r.transform
            == fallback.transform
        &&& self.x is None && fallback.x is Some ==> r.x == fallback.x
        &&& self.y is None && fallback.y is Some ==> r.y == fallback.y
        &&& self.width is None && fallback.width is Some ==> r.width == fallback.width
        &&& self.height is None && fallback.height is Some ==> r.height == fallback.height
    }

    /// A record with no field set.
    pub fn unset() -> (r: Common)
        ensures
            r == spec_unset_common(),
    {
        Common {
            units: None,
            content_units: None,
            view_box: ViewBoxState::Unresolved,
            preserve_aspect_ratio: None,
            transform: None,
            x: None,
            y: None,
            width: None,
            height: None,
        }
    }

    pub fn is_complete(&self) -> (r: bool)
        ensures
            r == self.spec_is_complete(),
    {
        self.units.is_some() && self.content_units.is_some() && !matches!(
            self.view_box,
            ViewBoxState::Unresolved
        ) && self.preserve_aspect_ratio.is_some() && self.transform.is_some()
            && self.x.is_some() && self.y.is_some() && self.width.is_some()
            && self.height.is_some()
    }

    /// Fieldwise merge in which the fields of `self` take precedence.
    pub fn or(&self, other: &Common) -> (r: Common)
        ensures
            r == self.spec_or(*other),
    {
        Common {
            units: if self.units.is_some() { self.units } else { other.units },
            content_units: if self.content_units.is_some() {
                self.content_units
            } else {
                other.content_units
            },
            view_box: if matches!(self.view_box, ViewBoxState::Unresolved) {
                other.view_box
            } else {
                self.view_box
            },
            preserve_aspect_ratio: if self.preserve_aspect_ratio.is_some() {
                self.preserve_aspect_ratio
            } else {
                other.preserve_aspect_ratio
            },
            transform: if self.transform.is_some() { self.transform } else { other.transform },
            x: if self.x.is_some() { self.x } else { other.x },
            y: if self.y.is_some() { self.y } else { other.y },
            width: if self.width.is_some() { self.width } else { other.width },
            height: if self.height.is_some() { self.height } else { other.height },
        }
    }

    /// The record of default values.
    pub fn defaults() -> (r: Common)
        ensures
            r == spec_default_common(),
    {
        Common {
            units: Some(CoordUnits::ObjectBoundingBox),
            content_units: Some(CoordUnits::UserSpaceOnUse),
            view_box: ViewBoxState::Absent,
            preserve_aspect_ratio: Some(
                AspectRatio { defer: false, align: Align::XMidYMid, slice: false },
            ),
            transform: Some(Transform { xx: FIXED_ONE, yx: 0, xy: 0, yy: FIXED_ONE, x0: 0, y0: 0 }),
            x: Some(0),
            y: Some(0),
            width: Some(0),
            height: Some(0),
        }
    }
}

/// Fields kept along two merges stay kept.
pub proof fn lemma_kept_transitive(a: Common, b: Common, c: Common)
    requires
        a.spec_kept_in(b),
        b.spec_kept_in(c),
    ensures
        a.spec_kept_in(c),
{
}

/// A merge keeps the fields of its first record.
pub proof fn lemma_or_keeps(a: Common, b: Common)
    ensures
        a.spec_kept_in(a.spec_or(b)),
        a.spec_filled_in(b, a.spec_or(b)),
        a.spec_or(spec_default_common()).spec_is_complete(),
{
}

} // verus!
