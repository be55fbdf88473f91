use vstd::prelude::*;

use crate::geometry::{Area, Size2D};
use crate::position::{Position, PositionSides};
use crate::scaled::Scaled;

verus! {

/// A stacked node keeps the origin of the available parent area, whatever
/// the other areas are.
pub proof fn lemma_stacked_keeps_flow_origin(available_parent_area: Area, parent_area: Area, area_size: Size2D, root_area: Area)
    ensures
        Position::Stacked.spec_origin_x(available_parent_area, parent_area, area_size, root_area) == available_parent_area.origin.x,
        Position::Stacked.spec_origin_y(available_parent_area, parent_area, area_size, root_area) == available_parent_area.origin.y,
{
}

/// An absolute node with a top offset sits that far below the parent's top
/// edge, and a bottom offset set beside it changes nothing.
pub proof fn lemma_absolute_top_wins(sides: PositionSides, other_bottom: Option<i64>, available_parent_area: Area, parent_area: Area, area_size: Size2D, root_area: Area)
    requires
        sides.top.is_some(),
    ensures
        Position::Absolute(sides).spec_origin_y(available_parent_area, parent_area, area_size, root_area)
            == parent_area.spec_min_y() + sides.top.unwrap(),
        Position::Absolute(PositionSides { bottom: other_bottom, ..sides }).spec_origin_y(available_parent_area, parent_area, area_size, root_area)
            == Position::Absolute(sides).spec_origin_y(available_parent_area, parent_area, area_size, root_area),
{
}

/// An absolute node with a left offset sits that far right of the parent's
/// left edge, and a right offset set beside it changes nothing.
pub proof fn lemma_absolute_left_wins(sides: PositionSides, other_right: Option<i64>, available_parent_area: Area, parent_area: Area, area_size: Size2D, root_area: Area)
    requires
        sides.left.is_some(),
    ensures
        Position::Absolute(sides).spec_origin_x(available_parent_area, parent_area, area_size, root_area)
            == parent_area.spec_min_x() + sides.left.unwrap(),
        Position::Absolute(PositionSides { right: other_right, ..sides }).spec_origin_x(available_parent_area, parent_area, area_size, root_area)
            == Position::Absolute(sides).spec_origin_x(available_parent_area, parent_area, area_size, root_area),
{
}

/// With only a bottom offset, an absolute node's bottom edge sits that far
/// above the parent's bottom edge.
pub proof fn lemma_absolute_bottom_anchor(sides: PositionSides, available_parent_area: Area, parent_area: Area, area_size: Size2D, root_area: Area)
    requires
        sides.top.is_none(),
        sides.bottom.is_some(),
    ensures
        Position::Absolute(sides).spec_origin_y(available_parent_area, parent_area, area_size, root_area)
            == parent_area.spec_max_y() - sides.bottom.unwrap() - area_size.height,
{
}

/// With only a right offset, an absolute node's right edge sits that far
/// left of the parent's right edge.
pub proof fn lemma_absolute_right_anchor(sides: PositionSides, available_parent_area: Area, parent_area: Area, area_size: Size2D, root_area: Area)
    requires
        sides.left.is_none(),
        sides.right.is_some(),
    ensures
        Position::Absolute(sides).spec_origin_x(available_parent_area, parent_area, area_size, root_area)
            == parent_area.spec_max_x() - sides.right.unwrap() - area_size.width,
{
}

/// With no vertical offset, an absolute node is level with the parent's top
/// edge; with no horizontal offset, with its left edge.
pub proof fn lemma_absolute_unanchored(sides: PositionSides, available_parent_area: Area, parent_area: Area, area_size: Size2D, root_area: Area)
    ensures
        sides.top.is_none() && sides.bottom.is_none() ==>
            Position::Absolute(sides).spec_origin_y(available_parent_area, parent_area, area_size, root_area) == parent_area.spec_min_y(),
        sides.left.is_none() && sides.right.is_none() ==>
            Position::Absolute(sides).spec_origin_x(available_parent_area, parent_area, area_size, root_area) == parent_area.spec_min_x(),
{
}

/// A global top offset is the vertical coordinate itself, whatever the root
/// area is.
pub proof fn lemma_global_top_exact(sides: PositionSides, available_parent_area: Area, parent_area: Area, area_size: Size2D, root_area: Area)
    requires
        sides.top.is_some(),
    ensures
        Position::Global(sides).spec_origin_y(available_parent_area, parent_area, area_size, root_area) == sides.top.unwrap(),
{
}

/// With only a bottom offset, a global node's top edge sits that far above
/// the root's bottom edge; the node's own height plays no part.
pub proof fn lemma_global_bottom_anchor(sides: PositionSides, available_parent_area: Area, parent_area: Area, area_size: Size2D, root_area: Area)
    requires
        sides.top.is_none(),
        sides.bottom.is_some(),
    ensures
        Position::Global(sides).spec_origin_y(available_parent_area, parent_area, area_size, root_area)
            == root_area.spec_max_y() - sides.bottom.unwrap(),
{
}

/// Scaling a fully specified absolute value multiplies each offset by the
/// factor; global and stacked values are left as they are.
pub proof fn lemma_scale_only_absolute(p: Position, t: i64, r: i64, b: i64, l: i64, factor: int)
    ensures
        p == Position::Absolute(PositionSides { top: Some(t), right: Some(r), bottom: Some(b), left: Some(l) })
            && p.scalable_by(factor) ==> p.scaled_by(factor) == Position::Absolute(PositionSides {
                top: Some((t * factor) as i64),
                right: Some((r * factor) as i64),
                bottom: Some((b * factor) as i64),
                left: Some((l * factor) as i64),
            }),
        p == Position::Absolute(PositionSides { top: Some(t), right: Some(r), bottom: Some(b), left: Some(l) })
            && p.scalable_by(factor) ==> {
                let q = p.scaled_by(factor)->Absolute_0;
                &&& q.top.unwrap() == t * factor
                &&& q.right.unwrap() == r * factor
                &&& q.bottom.unwrap() == b * factor
                &&& q.left.unwrap() == l * factor
            },
        !(p is Absolute) ==> p.scaled_by(factor) == p,
{
}

/// Setting the top offset of a global value gives an absolute value with
/// only that offset: the global offsets are dropped, not merged.
pub proof fn lemma_set_top_on_global_drops_offsets(sides: PositionSides, v: i64)
    ensures
        Position::Global(sides).with_top(v)
            == Position::Absolute(PositionSides { top: Some(v), right: None, bottom: None, left: None }),
{
}

/// `is_empty` holds of a stacked value, and of an absolute or global value
/// exactly when all four offsets are set.
pub proof fn lemma_is_empty_means_fully_specified(p: Position)
    ensures
        p is Stacked ==> p.spec_is_empty(),
        p is Absolute ==> (p.spec_is_empty() <==> {
            let s = p->Absolute_0;
            s.top.is_some() && s.right.is_some() && s.bottom.is_some() && s.left.is_some()
        }),
        p is Global ==> (p.spec_is_empty() <==> {
            let s = p->Global_0;
            s.top.is_some() && s.right.is_some() && s.bottom.is_some() && s.left.is_some()
        }),
{
}

} // verus!
