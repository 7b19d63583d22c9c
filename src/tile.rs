//! The geometry of a pattern tile: its size in device pixels, where it is
//! placed, and which frame its content is drawn in.
//!
//! Lengths and scale factors are fixed-point with denominator `FIXED_ONE`;
//! products of two of them, such as a tile size in user space, carry the
//! denominator `FIXED_ONE * FIXED_ONE`.
use vstd::prelude::*;

use crate::attributes::{AspectRatio, CoordUnits, Transform, ViewBox, ViewBoxState, FIXED_ONE};
use crate::pattern::NodePattern;

verus! {

/// The largest magnitude of a fixed-point coordinate or scale factor.
pub const MAX_COORD: i64 = 1099511627776;

/// The largest side of a raster tile, in pixels.
pub const MAX_PIXELS: i64 = 2147483647;

/// The bounding box of the shape being painted.
#[derive(Clone, Copy, Debug, PartialEq, Eq, Structural)]
pub struct BoundingBox {
    pub x: i64,
    pub y: i64,
    pub width: i64,
    pub height: i64,
}

/// The frame in which the pattern's content is drawn.
#[derive(Clone, Copy, Debug, PartialEq, Eq, Structural)]
pub enum ContentFrame {
    /// The viewBox is fitted into the tile by the aspect-ratio policy; the
    /// content is drawn in a viewport of the viewBox's size.
    ViewBox(ViewBox, AspectRatio),
    /// The content is scaled by the bounding box's width and height and
    /// drawn in a unit viewport.
    BoundingBox(i64, i64),
    /// The content is drawn in the caller's user space.
    UserSpace,
}

/// What is needed to rasterize one tile and install it as a repeating paint
/// source.
#[derive(Clone, Copy, Debug, PartialEq, Eq, Structural)]
pub struct TilePlan {
    /// The tree node whose children are drawn into the tile.
    pub content_node: usize,
    /// The tile's size in device pixels.
    pub pixel_width: i64,
    pub pixel_height: i64,
    /// The tile's size in user space (denominator `FIXED_ONE * FIXED_ONE`).
    /// The quantized scale factors are `pixel_width / scaled_width` and
    /// `pixel_height / scaled_height` once that denominator is taken out.
    pub scaled_width: i128,
    pub scaled_height: i128,
    /// Where the tile's origin is placed (denominator `FIXED_ONE * FIXED_ONE`),
    /// before the pattern transform.
    pub origin_x: i128,
    pub origin_y: i128,
    /// The pattern transform, applied after the translation to the origin.
    pub transform: Transform,
    pub content: ContentFrame,
    /// The quantized scale factors differ from one: the content is scaled by
    /// them and the placement by their inverse.
    pub rescale: bool,
}

pub open spec fn in_coord_range(v: int) -> bool {
    -MAX_COORD <= v <= MAX_COORD
}

/// The scale that the bounding box lends to the tile's size.
pub open spec fn spec_bb_scale(units: CoordUnits, bb_size: int) -> int {
    if units == CoordUnits::ObjectBoundingBox {
        bb_size
    } else {
        FIXED_ONE as int
    }
}

/// The tile side in device pixels: the scaled size, truncated, and capped
/// at what a raster surface can hold.
pub open spec fn spec_pixel_size(size: int, bb_scale: int, scale: int) -> int {
    let p = size * bb_scale * scale / (FIXED_ONE * FIXED_ONE * FIXED_ONE);
    if p > MAX_PIXELS {
        MAX_PIXELS as int
    } else {
        p
    }
}

/// The bounding box, where the pattern has units relative to it.
pub open spec fn spec_bbox_of(units: CoordUnits, bbox: Option<BoundingBox>) -> BoundingBox {
    if units == CoordUnits::ObjectBoundingBox {
        bbox->Some_0
    } else {
        BoundingBox { x: 0, y: 0, width: FIXED_ONE, height: FIXED_ONE }
    }
}

/// The tile's origin along one axis.
pub open spec fn spec_origin(units: CoordUnits, pos: int, bb_pos: int, bb_size: int) -> int {
    if units == CoordUnits::ObjectBoundingBox {
        bb_pos * FIXED_ONE + pos * bb_size
    } else {
        pos * FIXED_ONE
    }
}

/// The content frame, by priority: a viewBox, then content units relative
/// to the bounding box, then user space.
pub open spec fn spec_content_frame(p: NodePattern, bbox: Option<BoundingBox>) -> ContentFrame {
    match p.common.view_box {
        ViewBoxState::Present(vb) => ContentFrame::ViewBox(vb, p.common.preserve_aspect_ratio->Some_0),
        _ => if p.common.content_units == Some(CoordUnits::ObjectBoundingBox) {
            ContentFrame::BoundingBox(bbox->Some_0.width, bbox->Some_0.height)
        } else {
            ContentFrame::UserSpace
        },
    }
}

/// The inputs for which a tile can be planned: a resolved pattern with
/// bounded lengths, a bounding box wherever one is needed, and scale factors
/// (the row norms of the combined transform) that are non-negative.
pub open spec fn tile_inputs_ok(p: NodePattern, bbox: Option<BoundingBox>, scale_x: i64, scale_y: i64) -> bool {
    &&& p.common.spec_is_complete()
    &&& in_coord_range(p.common.x->Some_0 as int)
    &&& in_coord_range(p.common.y->Some_0 as int)
    &&& 0 <= p.common.width->Some_0 <= MAX_COORD
    &&& 0 <= p.common.height->Some_0 <= MAX_COORD
    &&& 0 <= scale_x <= MAX_COORD
    &&& 0 <= scale_y <= MAX_COORD
    &&& (p.common.units == Some(CoordUnits::ObjectBoundingBox) || (!(p.common.view_box is Present)
        && p.common.content_units == Some(CoordUnits::ObjectBoundingBox))) ==> bbox is Some
    &&& bbox matches Some(b) ==> {
        &&& in_coord_range(b.x as int)
        &&& in_coord_range(b.y as int)
        &&& 0 <= b.width <= MAX_COORD
        &&& 0 <= b.height <= MAX_COORD
    }
}

/// No tile is drawn: the pattern is empty, or its tile is degenerate.
pub open spec fn spec_tile_skipped(p: NodePattern, bbox: Option<BoundingBox>, scale_x: i64, scale_y: i64) -> bool {
    let units = p.common.units->Some_0;
    let b = spec_bbox_of(units, bbox);
    let sw = p.common.width->Some_0 * spec_bb_scale(units, b.width as int);
    let sh = p.common.height->Some_0 * spec_bb_scale(units, b.height as int);
    ||| p.node is None
    ||| sw == 0
    ||| sh == 0
    ||| spec_pixel_size(p.common.width->Some_0 as int, spec_bb_scale(units, b.width as int), scale_x as int) < 1
    ||| spec_pixel_size(p.common.height->Some_0 as int, spec_bb_scale(units, b.height as int), scale_y as int) < 1
}

/// The tile of a resolved pattern, where one is drawn.
pub open spec fn spec_tile_plan(p: NodePattern, bbox: Option<BoundingBox>, scale_x: i64, scale_y: i64) -> Option<TilePlan> {
    let units = p.common.units->Some_0;
    let b = spec_bbox_of(units, bbox);
    let bbw = spec_bb_scale(units, b.width as int);
    let bbh = spec_bb_scale(units, b.height as int);
    let w = p.common.width->Some_0 as int;
    let h = p.common.height->Some_0 as int;
    let pw = spec_pixel_size(w, bbw, scale_x as int);
    let ph = spec_pixel_size(h, bbh, scale_y as int);
    if spec_tile_skipped(p, bbox, scale_x, scale_y) {
        None
    } else {
        Some(TilePlan {
            content_node: p.node->Some_0,
            pixel_width: pw as i64,
            pixel_height: ph as i64,
            scaled_width: (w * bbw) as i128,
            scaled_height: (h * bbh) as i128,
            origin_x: spec_origin(units, p.common.x->Some_0 as int, b.x as int, b.width as int) as i128,
            origin_y: spec_origin(units, p.common.y->Some_0 as int, b.y as int, b.height as int) as i128,
            transform: p.common.transform->Some_0,
            content: spec_content_frame(p, bbox),
            rescale: pw * FIXED_ONE * FIXED_ONE != w * bbw || ph * FIXED_ONE * FIXED_ONE != h * bbh,
        })
    }
}

fn bb_scale(units: CoordUnits, bb_size: i64) -> (r: i64)
    ensures
        r == spec_bb_scale(units, bb_size as int),
{
    match units {
        CoordUnits::ObjectBoundingBox => bb_size,
        CoordUnits::UserSpaceOnUse => FIXED_ONE,
    }
}

fn pixel_size(size: i64, bb_scale: i64, scale: i64) -> (r: i64)
    requires
        0 <= size <= MAX_COORD,
        0 <= bb_scale <= MAX_COORD,
        0 <= scale <= MAX_COORD,
    ensures
        r == spec_pixel_size(size as int, bb_scale as int, scale as int),
{
    let a = size as i128;
    let b = bb_scale as i128;
    let c = scale as i128;
    assert(0 <= a * b <= MAX_COORD * MAX_COORD) by (nonlinear_arith)
        requires
            0 <= a <= MAX_COORD,
            0 <= b <= MAX_COORD,
    ;
    let ab = a * b;
    assert(0 <= ab * c <= MAX_COORD * MAX_COORD * MAX_COORD) by (nonlinear_arith)
        requires
            0 <= ab <= MAX_COORD * MAX_COORD,
            0 <= c <= MAX_COORD,
    ;
    let p = ab * c / 1000000000i128;
    if p > MAX_PIXELS as i128 {
        MAX_PIXELS
    } else {
        p as i64
    }
}

fn origin(units: CoordUnits, pos: i64, bb_pos: i64, bb_size: i64) -> (r: i128)
    requires
        in_coord_range(pos as int),
        in_coord_range(bb_pos as int),
        0 <= bb_size <= MAX_COORD,
    ensures
        r == spec_origin(units, pos as int, bb_pos as int, bb_size as int),
{
    let p = pos as i128;
    let s = bb_size as i128;
    assert(-MAX_COORD * MAX_COORD <= p * s <= MAX_COORD * MAX_COORD) by (nonlinear_arith)
        requires
            -MAX_COORD <= p <= MAX_COORD,
            0 <= s <= MAX_COORD,
    ;
    match units {
        CoordUnits::ObjectBoundingBox => bb_pos as i128 * FIXED_ONE as i128 + p * s,
        CoordUnits::UserSpaceOnUse => {
            assert(-MAX_COORD * 1000 <= p * 1000 <= MAX_COORD * 1000);
            p * FIXED_ONE as i128
        },
    }
}

fn coord_in_range(v: i64) -> (r: bool)
    ensures
        r == in_coord_range(v as int),
{
    -MAX_COORD <= v && v <= MAX_COORD
}

fn size_in_range(v: i64) -> (r: bool)
    ensures
        r == (0 <= v <= MAX_COORD),
{
    0 <= v && v <= MAX_COORD
}

impl NodePattern {
    /// Whether `tile_plan` accepts these inputs.
    pub fn can_plan_tile(&self, bbox: Option<BoundingBox>, scale_x: i64, scale_y: i64) -> (r: bool)
        ensures
            r == tile_inputs_ok(*self, bbox, scale_x, scale_y),
    {
        if !self.common.is_complete() {
            return false;
        }
        let c = &self.common;
        let needs_bbox = c.units == Some(CoordUnits::ObjectBoundingBox) || (!matches!(
            c.view_box,
            ViewBoxState::Present(_)
        ) && c.content_units == Some(CoordUnits::ObjectBoundingBox));
        let bbox_ok = match bbox {
            Some(b) => coord_in_range(b.x) && coord_in_range(b.y) && size_in_range(b.width)
                && size_in_range(b.height),
            None => !needs_bbox,
        };
        coord_in_range(c.x.unwrap()) && coord_in_range(c.y.unwrap()) && size_in_range(
            c.width.unwrap(),
        ) && size_in_range(c.height.unwrap()) && size_in_range(scale_x) && size_in_range(scale_y)
            && bbox_ok
    }

    /// Plans the tile of this resolved pattern for a shape with bounding box
    /// `bbox`, under a combined transform whose row norms are `scale_x` and
    /// `scale_y`. `None` means that nothing is painted: the pattern is empty
    /// or its tile has no area or is smaller than a pixel.
    pub fn tile_plan(&self, bbox: Option<BoundingBox>, scale_x: i64, scale_y: i64) -> (r: Option<TilePlan>)
        requires
            tile_inputs_ok(*self, bbox, scale_x, scale_y),
        ensures
            r == spec_tile_plan(*self, bbox, scale_x, scale_y),
            r is None <==> spec_tile_skipped(*self, bbox, scale_x, scale_y),
            self.common.width == Some(0i64) ==> r is None,
            self.common.height == Some(0i64) ==> r is None,
            self.common.units == Some(CoordUnits::ObjectBoundingBox) && bbox->Some_0.width == 0 ==> r is None,
            self.common.units == Some(CoordUnits::ObjectBoundingBox) && bbox->Some_0.height == 0 ==> r is None,
    {
        let content_node = match self.node {
            Some(n) => n,
            None => {
                return None;
            },
        };
        let units = self.common.units.unwrap();
        let b = match units {
            CoordUnits::ObjectBoundingBox => bbox.unwrap(),
            CoordUnits::UserSpaceOnUse => BoundingBox { x: 0, y: 0, width: FIXED_ONE, height: FIXED_ONE },
        };
        let width = self.common.width.unwrap();
        let height = self.common.height.unwrap();
        let bbw = bb_scale(units, b.width);
        let bbh = bb_scale(units, b.height);
        let pw = pixel_size(width, bbw, scale_x);
        let ph = pixel_size(height, bbh, scale_y);
        assert(0 <= width * bbw <= MAX_COORD * MAX_COORD) by (nonlinear_arith)
            requires 0 <= width <= MAX_COORD, 0 <= bbw <= MAX_COORD;
        assert(0 <= height * bbh <= MAX_COORD * MAX_COORD) by (nonlinear_arith)
            requires 0 <= height <= MAX_COORD, 0 <= bbh <= MAX_COORD;
        let sw = width as i128 * bbw as i128;
        let sh = height as i128 * bbh as i128;
        assert(sw == 0 <==> (width == 0 || bbw == 0)) by (nonlinear_arith)
            requires sw == width * bbw;
        assert(sh == 0 <==> (height == 0 || bbh == 0)) by (nonlinear_arith)
            requires sh == height * bbh;
        assert(width * bbw * scale_x == 0 ==> spec_pixel_size(width as int, bbw as int, scale_x as int) < 1);
        assert(height * bbh * scale_y == 0 ==> spec_pixel_size(height as int, bbh as int, scale_y as int) < 1);
        if sw == 0 || sh == 0 || pw < 1 || ph < 1 {
            return None;
        }
        let ox = origin(units, self.common.x.unwrap(), b.x, b.width);
        let oy = origin(units, self.common.y.unwrap(), b.y, b.height);
        let content = match self.common.view_box {
            ViewBoxState::Present(vb) => ContentFrame::ViewBox(vb, self.common.preserve_aspect_ratio.unwrap()),
            _ => match self.common.content_units {
                Some(CoordUnits::ObjectBoundingBox) => {
                    let bb = bbox.unwrap();
                    ContentFrame::BoundingBox(bb.width, bb.height)
                },
                _ => ContentFrame::UserSpace,
            },
        };
        let one_sq: i128 = FIXED_ONE as i128 * FIXED_ONE as i128;
        let rescale = pw as i128 * one_sq != sw || ph as i128 * one_sq != sh;
        Some(TilePlan {
            content_node,
            pixel_width: pw,
            pixel_height: ph,
            scaled_width: sw,
            scaled_height: sh,
            origin_x: ox,
            origin_y: oy,
            transform: self.common.transform.unwrap(),
            content,
            rescale,
        })
    }
}

} // verus!
