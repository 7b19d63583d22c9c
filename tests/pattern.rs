use rsvg_pattern::attributes::{Align, AspectRatio, Common, CoordUnits, Transform, ViewBox, ViewBoxState};
use rsvg_pattern::atts::{AttributeError, PatternAttribute};
use rsvg_pattern::pattern::{Document, NodePattern, PaintServerError};
use rsvg_pattern::tile::{BoundingBox, ContentFrame};

fn identity() -> Transform {
    Transform { xx: 1000, yx: 0, xy: 0, yy: 1000, x0: 0, y0: 0 }
}

fn resolved_user_space(width: i64, height: i64) -> NodePattern {
    let mut p = NodePattern::default();
    p.common = Common::defaults();
    p.common.units = Some(CoordUnits::UserSpaceOnUse);
    p.common.width = Some(width);
    p.common.height = Some(height);
    p.node = Some(0);
    p
}

#[test]
fn pattern_resolved_from_defaults_is_really_resolved() {
    let doc = Document::new();
    let pat = NodePattern::default();
    let res = pat.resolve_from_defaults(&doc);
    assert!(res.is_resolved(&doc));
}

#[test]
fn unset_pattern_resolves_to_defaults() {
    let mut doc = Document::new();
    let a = doc.add_node(Some(NodePattern::default()), true);
    let r = NodePattern::default().resolve(a, &doc).unwrap();
    assert_eq!(r.common, Common::defaults());
    assert_eq!(r.common.units, Some(CoordUnits::ObjectBoundingBox));
    assert_eq!(r.common.content_units, Some(CoordUnits::UserSpaceOnUse));
    assert_eq!(r.common.view_box, ViewBoxState::Absent);
    assert_eq!(r.common.transform, Some(identity()));
    assert_eq!(
        r.common.preserve_aspect_ratio,
        Some(AspectRatio { defer: false, align: Align::XMidYMid, slice: false })
    );
    assert_eq!(r.common.width, Some(0));
    assert_eq!(r.node, Some(a));
    assert!(r.is_resolved(&doc));
}

#[test]
fn childless_pattern_without_fallback_is_empty() {
    let mut doc = Document::new();
    let a = doc.add_node(Some(NodePattern::default()), false);
    let r = NodePattern::default().resolve(a, &doc).unwrap();
    assert_eq!(r.node, None);
    assert_eq!(r.fallback, None);
    assert!(r.is_resolved(&doc));
}

#[test]
fn own_fields_override_fallback() {
    let mut doc = Document::new();
    let mut b = NodePattern::default();
    b.common.units = Some(CoordUnits::ObjectBoundingBox);
    b.common.width = Some(5000);
    b.common.x = Some(7000);
    let bi = doc.add_node(Some(b), false);
    let mut a = NodePattern::default();
    a.common.units = Some(CoordUnits::UserSpaceOnUse);
    a.common.width = Some(2000);
    a.fallback = Some(bi);
    let ai = doc.add_node(Some(a), false);
    let r = a.resolve(ai, &doc).unwrap();
    assert_eq!(r.common.units, Some(CoordUnits::UserSpaceOnUse));
    assert_eq!(r.common.width, Some(2000));
    // unset on the start, set on the fallback
    assert_eq!(r.common.x, Some(7000));
    // unset on both
    assert_eq!(r.common.y, Some(0));
}

#[test]
fn content_comes_from_fallback_with_children() {
    let mut doc = Document::new();
    let b = NodePattern::default();
    let bi = doc.add_node(Some(b), true);
    let mut a = NodePattern::default();
    a.fallback = Some(bi);
    let ai = doc.add_node(Some(a), false);
    let r = a.resolve(ai, &doc).unwrap();
    assert_eq!(r.node, Some(bi));
}

#[test]
fn own_children_win_over_deep_fallbacks() {
    let mut doc = Document::new();
    let c = doc.add_node(Some(NodePattern::default()), true);
    let mut b = NodePattern::default();
    b.fallback = Some(c);
    let bi = doc.add_node(Some(b), true);
    let mut a = NodePattern::default();
    a.fallback = Some(bi);
    let ai = doc.add_node(Some(a), true);
    let r = a.resolve(ai, &doc).unwrap();
    assert_eq!(r.node, Some(ai));
}

#[test]
fn two_node_cycle_names_second_node() {
    let mut doc = Document::new();
    // a = 0, b = 1: a -> b -> a
    let mut a = NodePattern::default();
    a.fallback = Some(1);
    let mut b = NodePattern::default();
    b.fallback = Some(0);
    let ai = doc.add_node(Some(a), false);
    let bi = doc.add_node(Some(b), false);
    assert_eq!(a.resolve(ai, &doc), Err(PaintServerError::CircularReference(bi)));
}

#[test]
fn self_reference_is_circular() {
    let mut doc = Document::new();
    let mut a = NodePattern::default();
    a.fallback = Some(0);
    let ai = doc.add_node(Some(a), false);
    assert_eq!(a.resolve(ai, &doc), Err(PaintServerError::CircularReference(ai)));
}

#[test]
fn dangling_fallback_uses_defaults() {
    let mut doc = Document::new();
    let mut a = NodePattern::default();
    a.fallback = Some(42);
    a.common.height = Some(3000);
    let ai = doc.add_node(Some(a), true);
    let r = a.resolve(ai, &doc).unwrap();
    assert_eq!(r.common.height, Some(3000));
    assert_eq!(r.common.width, Some(0));
    assert_eq!(r.node, Some(ai));
}

#[test]
fn fallback_to_non_pattern_uses_defaults() {
    let mut doc = Document::new();
    let other = doc.add_node(None, true);
    let mut a = NodePattern::default();
    a.fallback = Some(other);
    let ai = doc.add_node(Some(a), false);
    let r = a.resolve(ai, &doc).unwrap();
    assert_eq!(r.node, None);
    assert_eq!(r.common, Common::defaults());
}

#[test]
fn long_acyclic_chain_resolves() {
    let mut doc = Document::new();
    let n: usize = 20;
    for i in 0..n {
        let mut p = NodePattern::default();
        if i + 1 < n {
            p.fallback = Some(i + 1);
        }
        if i + 1 == n {
            p.common.width = Some(9000);
        }
        doc.add_node(Some(p), i + 1 == n);
    }
    let start = doc.nodes[0].pattern.unwrap();
    let r = start.resolve(0, &doc).unwrap();
    assert_eq!(r.common.width, Some(9000));
    assert_eq!(r.node, Some(n - 1));
}

#[test]
fn fallback_merge_step() {
    let doc = Document::new();
    let mut a = NodePattern::default();
    a.common.x = Some(1000);
    let mut b = NodePattern::default();
    b.common.x = Some(2000);
    b.common.y = Some(3000);
    b.fallback = Some(5);
    let r = a.resolve_from_fallback(&doc, &b);
    assert_eq!(r.common.x, Some(1000));
    assert_eq!(r.common.y, Some(3000));
    assert_eq!(r.fallback, Some(5));
}

#[test]
fn set_atts_sets_fields_in_order() {
    let mut p = NodePattern::default();
    let atts = vec![
        PatternAttribute::Width(4000),
        PatternAttribute::Other,
        PatternAttribute::Href(3),
        PatternAttribute::ViewBox(ViewBox { x: 0, y: 0, width: 10, height: 20 }),
        PatternAttribute::Width(6000),
        PatternAttribute::PatternUnits(CoordUnits::UserSpaceOnUse),
    ];
    assert_eq!(p.set_atts(&atts), Ok(()));
    assert_eq!(p.common.width, Some(6000));
    assert_eq!(p.fallback, Some(3));
    assert_eq!(p.common.units, Some(CoordUnits::UserSpaceOnUse));
    assert_eq!(p.common.view_box, ViewBoxState::Present(ViewBox { x: 0, y: 0, width: 10, height: 20 }));
    assert_eq!(p.common.height, None);
}

#[test]
fn set_atts_rejects_negative_width() {
    let mut p = NodePattern::default();
    let atts = vec![PatternAttribute::X(5), PatternAttribute::Width(-1), PatternAttribute::Y(7)];
    assert_eq!(p.set_atts(&atts), Err(AttributeError::NegativeWidth(-1)));
    assert_eq!(p.common.x, Some(5));
    assert_eq!(p.common.y, None);
}

#[test]
fn set_atts_rejects_negative_height() {
    let mut p = NodePattern::default();
    let atts = vec![PatternAttribute::Height(-20)];
    assert_eq!(p.set_atts(&atts), Err(AttributeError::NegativeHeight(-20)));
    assert_eq!(p.common.height, None);
}

#[test]
fn zero_width_tile_is_skipped() {
    let p = resolved_user_space(0, 10000);
    assert_eq!(p.tile_plan(None, 1000, 1000), None);
}

#[test]
fn zero_bbox_width_tile_is_skipped() {
    let mut p = resolved_user_space(500, 500);
    p.common.units = Some(CoordUnits::ObjectBoundingBox);
    let bbox = BoundingBox { x: 0, y: 0, width: 0, height: 10000 };
    assert_eq!(p.tile_plan(Some(bbox), 1000, 1000), None);
}

#[test]
fn sub_pixel_tile_is_skipped() {
    let p = resolved_user_space(500, 10000);
    assert_eq!(p.tile_plan(None, 1000, 1000), None);
}

#[test]
fn empty_pattern_has_no_tile() {
    let mut p = resolved_user_space(10000, 10000);
    p.node = None;
    assert_eq!(p.tile_plan(None, 1000, 1000), None);
}

#[test]
fn tile_width_is_quantized() {
    let p = resolved_user_space(10000, 10000);
    let t = p.tile_plan(None, 3330, 3330).unwrap();
    assert_eq!(t.pixel_width, 33);
    assert_eq!(t.pixel_height, 33);
    // 10 user units: the quantized scale is 33 / 10
    assert_eq!(t.scaled_width, 10_000_000);
    assert!(t.rescale);
    assert_eq!(t.content, ContentFrame::UserSpace);
    assert_eq!(t.content_node, 0);
}

#[test]
fn exact_tile_needs_no_rescale() {
    let p = resolved_user_space(10000, 20000);
    let t = p.tile_plan(None, 1000, 1000).unwrap();
    assert_eq!(t.pixel_width, 10);
    assert_eq!(t.pixel_height, 20);
    assert!(!t.rescale);
}

#[test]
fn bounding_box_units_place_and_scale_tile() {
    let mut p = resolved_user_space(500, 250);
    p.common.units = Some(CoordUnits::ObjectBoundingBox);
    p.common.content_units = Some(CoordUnits::ObjectBoundingBox);
    p.common.x = Some(100);
    p.common.y = Some(200);
    let bbox = BoundingBox { x: 2000, y: 3000, width: 40000, height: 80000 };
    let t = p.tile_plan(Some(bbox), 1000, 1000).unwrap();
    // width 0.5 * 40 = 20, height 0.25 * 80 = 20
    assert_eq!(t.pixel_width, 20);
    assert_eq!(t.pixel_height, 20);
    // origin 2 + 0.1 * 40 = 6, 3 + 0.2 * 80 = 19
    assert_eq!(t.origin_x, 6_000_000);
    assert_eq!(t.origin_y, 19_000_000);
    assert_eq!(t.content, ContentFrame::BoundingBox(40000, 80000));
}

#[test]
fn view_box_takes_priority_in_content_frame() {
    let mut p = resolved_user_space(10000, 10000);
    p.common.content_units = Some(CoordUnits::ObjectBoundingBox);
    let vb = ViewBox { x: 0, y: 0, width: 1000, height: 1000 };
    p.common.view_box = ViewBoxState::Present(vb);
    let t = p.tile_plan(None, 1000, 1000).unwrap();
    assert_eq!(t.content, ContentFrame::ViewBox(vb, p.common.preserve_aspect_ratio.unwrap()));
}

#[test]
fn user_space_origin_is_pattern_position() {
    let mut p = resolved_user_space(10000, 10000);
    p.common.x = Some(-1500);
    p.common.y = Some(2500);
    let t = p.tile_plan(None, 2000, 2000).unwrap();
    assert_eq!(t.origin_x, -1_500_000);
    assert_eq!(t.origin_y, 2_500_000);
    assert_eq!(t.pixel_width, 20);
}

#[test]
fn planning_twice_gives_the_same_tile() {
    let p = resolved_user_space(12345, 6789);
    let a = p.tile_plan(None, 2500, 1700);
    let b = p.tile_plan(None, 2500, 1700);
    assert_eq!(a, b);
    assert!(a.is_some());
}

#[test]
fn huge_tile_is_capped() {
    let p = resolved_user_space(1_000_000_000_000, 1000);
    let t = p.tile_plan(None, 1_000_000_000_000, 1000).unwrap();
    assert_eq!(t.pixel_width, 2147483647);
    assert_eq!(t.pixel_height, 1);
}

#[test]
fn tile_inputs_are_checked() {
    let p = resolved_user_space(10000, 10000);
    assert!(p.can_plan_tile(None, 1000, 1000));
    assert!(!p.can_plan_tile(None, -1, 1000));
    let mut q = p;
    q.common.units = Some(CoordUnits::ObjectBoundingBox);
    assert!(!q.can_plan_tile(None, 1000, 1000));
    let bbox = BoundingBox { x: 0, y: 0, width: 1000, height: 1000 };
    assert!(q.can_plan_tile(Some(bbox), 1000, 1000));
    assert!(!NodePattern::default().can_plan_tile(None, 1000, 1000));
}

#[test]
fn pattern_content_is_clipped() {
    assert!(NodePattern::default().overflow_hidden());
}
