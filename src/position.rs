use vstd::prelude::*;
use vstd::string::*;

use crate::decimal::{append_decimal, decimal};
use crate::geometry::{fits_i64, Area, Point2D, Size2D};

verus! {

/// Four optional offsets. An absent side does not anchor.
#[derive(Clone, Copy, Debug, PartialEq, Eq, Structural)]
pub struct PositionSides {
    pub top: Option<i64>,
    pub right: Option<i64>,
    pub bottom: Option<i64>,
    pub left: Option<i64>,
}

/// How a node is placed: in normal flow, anchored to its parent, or
/// anchored to the root area.
#[derive(Clone, Copy, Debug, PartialEq, Eq, Structural)]
pub enum Position {
    Stacked,
    Absolute(PositionSides),
    Global(PositionSides),
}

/// Offset along one axis anchored to a parent span `[min, max]`: the start
/// side wins over the end side, and the end side places the far edge of a
/// node of length `extent`.
pub open spec fn absolute_axis(start: Option<i64>, end: Option<i64>, min: int, max: int, extent: int) -> int {
    match start {
        Some(s) => min + s,
        None => match end {
            Some(e) => max - e - extent,
            None => min,
        },
    }
}

/// Coordinate along one axis anchored to the root: the start side is taken
/// as is, the end side is measured back from the root's far edge `max`, and
/// with neither the coordinate is zero.
pub open spec fn global_axis(start: Option<i64>, end: Option<i64>, max: int) -> int {
    match start {
        Some(s) => s as int,
        None => match end {
            Some(e) => max - e,
            None => 0,
        },
    }
}

/// An offset multiplied by a factor, when present.
pub open spec fn scaled_offset(v: Option<i64>, factor: int) -> Option<int> {
    match v {
        Some(x) => Some(x * factor),
        None => None,
    }
}

/// A present offset's product with `factor` is representable.
pub open spec fn offset_scalable(v: Option<i64>, factor: int) -> bool {
    match v {
        Some(x) => fits_i64(x * factor),
        None => true,
    }
}

fn scale_offset(v: Option<i64>, factor: i64) -> (r: Option<i64>)
    requires
        offset_scalable(v, factor as int),
    ensures
        r.is_some() == v.is_some(),
        r.is_some() ==> r.unwrap() == v.unwrap() * factor,
{
    match v {
        Some(x) => Some(((x as i128) * (factor as i128)) as i64),
        None => None,
    }
}

fn absolute_coordinate(start: Option<i64>, end: Option<i64>, min: i64, span: i64, extent: i64) -> (r: i64)
    requires
        fits_i64(absolute_axis(start, end, min as int, min + span, extent as int)),
    ensures
        r == absolute_axis(start, end, min as int, min + span, extent as int),
{
    match start {
        Some(s) => ((min as i128) + (s as i128)) as i64,
        None => match end {
            Some(e) => ((min as i128) + (span as i128) - (e as i128) - (extent as i128)) as i64,
            None => min,
        },
    }
}

fn global_coordinate(start: Option<i64>, end: Option<i64>, min: i64, span: i64) -> (r: i64)
    requires
        fits_i64(global_axis(start, end, min + span)),
    ensures
        r == global_axis(start, end, min + span),
{
    match start {
        Some(s) => s,
        None => match end {
            Some(e) => ((min as i128) + (span as i128) - (e as i128)) as i64,
            None => 0,
        },
    }
}

impl PositionSides {
    pub open spec fn spec_none() -> PositionSides {
        PositionSides { top: None, right: None, bottom: None, left: None }
    }

    /// All four sides are set.
    pub open spec fn is_full(self) -> bool {
        self.top.is_some() && self.right.is_some() && self.bottom.is_some() && self.left.is_some()
    }

    /// Sides with no offset set.
    pub fn none() -> (r: PositionSides)
        ensures
            r == PositionSides::spec_none(),
    {
        PositionSides { top: None, right: None, bottom: None, left: None }
    }

    pub open spec fn scalable_by(self, factor: int) -> bool {
        &&& offset_scalable(self.top, factor)
        &&& offset_scalable(self.right, factor)
        &&& offset_scalable(self.bottom, factor)
        &&& offset_scalable(self.left, factor)
    }

    /// Every present offset multiplied by `factor`.
    pub open spec fn scaled_by(self, factor: int) -> PositionSides {
        PositionSides {
            top: match self.top { Some(x) => Some((x * factor) as i64), None => None },
            right: match self.right { Some(x) => Some((x * factor) as i64), None => None },
            bottom: match self.bottom { Some(x) => Some((x * factor) as i64), None => None },
            left: match self.left { Some(x) => Some((x * factor) as i64), None => None },
        }
    }

    pub(crate) fn scaled(&self, factor: i64) -> (r: PositionSides)
        requires
            self.scalable_by(factor as int),
        ensures
            r == self.scaled_by(factor as int),
    {
        PositionSides {
            top: scale_offset(self.top, factor),
            right: scale_offset(self.right, factor),
            bottom: scale_offset(self.bottom, factor),
            left: scale_offset(self.left, factor),
        }
    }

    pub open spec fn spec_pretty(self) -> Seq<char> {
        decimal(self.top.unwrap_or(0) as int) + ", "@
            + decimal(self.right.unwrap_or(0) as int) + ", "@
            + decimal(self.bottom.unwrap_or(0) as int) + ", "@
            + decimal(self.left.unwrap_or(0) as int)
    }

    fn pretty(&self) -> (r: String)
        ensures
            r@ == self.spec_pretty(),
    {
        proof {
            reveal_strlit(", ");
        }
        let mut s = String::new();
        append_decimal(&mut s, self.top.unwrap_or(0));
        s.append(", ");
        append_decimal(&mut s, self.right.unwrap_or(0));
        s.append(", ");
        append_decimal(&mut s, self.bottom.unwrap_or(0));
        s.append(", ");
        append_decimal(&mut s, self.left.unwrap_or(0));
        proof {
            assert(s@ =~= self.spec_pretty());
        }
        s
    }
}

impl Default for PositionSides {
    fn default() -> (r: PositionSides)
        ensures
            r == PositionSides::spec_none(),
    {
        PositionSides::none()
    }
}

impl Default for Position {
    fn default() -> (r: Position)
        ensures
            r == Position::Stacked,
    {
        Position::Stacked
    }
}

impl Position {
    pub open spec fn spec_is_empty(self) -> bool {
        match self {
            Position::Stacked => true,
            Position::Absolute(sides) => sides.is_full(),
            Position::Global(sides) => sides.is_full(),
        }
    }

    /// The sides of the `Absolute` value that a setter starts from: the
    /// current ones when already `Absolute`, none otherwise.
    pub open spec fn absolute_base(self) -> PositionSides {
        match self {
            Position::Absolute(sides) => sides,
            _ => PositionSides::spec_none(),
        }
    }

    pub open spec fn with_top(self, v: i64) -> Position {
        Position::Absolute(PositionSides { top: Some(v), ..self.absolute_base() })
    }

    pub open spec fn with_right(self, v: i64) -> Position {
        Position::Absolute(PositionSides { right: Some(v), ..self.absolute_base() })
    }

    pub open spec fn with_bottom(self, v: i64) -> Position {
        Position::Absolute(PositionSides { bottom: Some(v), ..self.absolute_base() })
    }

    pub open spec fn with_left(self, v: i64) -> Position {
        Position::Absolute(PositionSides { left: Some(v), ..self.absolute_base() })
    }

    /// Resolved horizontal coordinate of a node's origin.
    pub open spec fn spec_origin_x(self, available_parent_area: Area, parent_area: Area, area_size: Size2D, root_area: Area) -> int {
        match self {
            Position::Stacked => available_parent_area.origin.x as int,
            Position::Absolute(s) => absolute_axis(s.left, s.right, parent_area.spec_min_x(), parent_area.spec_max_x(), area_size.width as int),
            Position::Global(s) => global_axis(s.left, s.right, root_area.spec_max_x()),
        }
    }

    /// Resolved vertical coordinate of a node's origin.
    pub open spec fn spec_origin_y(self, available_parent_area: Area, parent_area: Area, area_size: Size2D, root_area: Area) -> int {
        match self {
            Position::Stacked => available_parent_area.origin.y as int,
            Position::Absolute(s) => absolute_axis(s.top, s.bottom, parent_area.spec_min_y(), parent_area.spec_max_y(), area_size.height as int),
            Position::Global(s) => global_axis(s.top, s.bottom, root_area.spec_max_y()),
        }
    }

    /// The resolved origin is representable.
    pub open spec fn origin_fits(self, available_parent_area: Area, parent_area: Area, area_size: Size2D, root_area: Area) -> bool {
        &&& fits_i64(self.spec_origin_x(available_parent_area, parent_area, area_size, root_area))
        &&& fits_i64(self.spec_origin_y(available_parent_area, parent_area, area_size, root_area))
    }

    pub open spec fn spec_pretty(self) -> Seq<char> {
        match self {
            Position::Stacked => "stacked"@,
            Position::Absolute(sides) => sides.spec_pretty(),
            Position::Global(sides) => sides.spec_pretty(),
        }
    }

    /// True for `Stacked`, and for `Absolute` or `Global` when all four
    /// sides are set.
    pub fn is_empty(&self) -> (r: bool)
        ensures
            r == self.spec_is_empty(),
    {
        match self {
            Position::Stacked => true,
            Position::Absolute(sides) => sides.top.is_some() && sides.right.is_some() && sides.bottom.is_some() && sides.left.is_some(),
            Position::Global(sides) => sides.top.is_some() && sides.right.is_some() && sides.bottom.is_some() && sides.left.is_some(),
        }
    }

    pub fn new_absolute() -> (r: Position)
        ensures
            r == Position::Absolute(PositionSides::spec_none()),
    {
        Position::Absolute(PositionSides::none())
    }

    pub fn new_global() -> (r: Position)
        ensures
            r == Position::Global(PositionSides::spec_none()),
    {
        Position::Global(PositionSides::none())
    }

    pub fn is_absolute(&self) -> (r: bool)
        ensures
            r == self is Absolute,
    {
        matches!(self, Position::Absolute(_))
    }

    pub fn is_global(&self) -> (r: bool)
        ensures
            r == self is Global,
    {
        matches!(self, Position::Global(_))
    }

    fn absolute_sides(&self) -> (r: PositionSides)
        ensures
            r == self.absolute_base(),
    {
        match self {
            Position::Absolute(sides) => *sides,
            _ => PositionSides::none(),
        }
    }

    /// Sets the top offset. A value that is not `Absolute` first becomes an
    /// `Absolute` with no sides set, dropping whatever offsets it had.
    pub fn set_top(&mut self, value: i64)
        ensures
            *final(self) == old(self).with_top(value),
    {
        let sides = self.absolute_sides();
        *self = Position::Absolute(PositionSides { top: Some(value), ..sides });
    }

    /// Sets the right offset, converting to `Absolute` as `set_top` does.
    pub fn set_right(&mut self, value: i64)
        ensures
            *final(self) == old(self).with_right(value),
    {
        let sides = self.absolute_sides();
        *self = Position::Absolute(PositionSides { right: Some(value), ..sides });
    }

    /// Sets the bottom offset, converting to `Absolute` as `set_top` does.
    pub fn set_bottom(&mut self, value: i64)
        ensures
            *final(self) == old(self).with_bottom(value),
    {
        let sides = self.absolute_sides();
        *self = Position::Absolute(PositionSides { bottom: Some(value), ..sides });
    }

    /// Sets the left offset, converting to `Absolute` as `set_top` does.
    pub fn set_left(&mut self, value: i64)
        ensures
            *final(self) == old(self).with_left(value),
    {
        let sides = self.absolute_sides();
        *self = Position::Absolute(PositionSides { left: Some(value), ..sides });
    }

    /// Resolves the origin of a node of size `area_size`. `Stacked` keeps
    /// the flow origin of `available_parent_area`; `Absolute` anchors to
    /// `parent_area`; `Global` anchors to `root_area`.
    pub fn get_origin(&self, available_parent_area: &Area, parent_area: &Area, area_size: &Size2D, root_area: &Area) -> (r: Point2D)
        requires
            self.origin_fits(*available_parent_area, *parent_area, *area_size, *root_area),
        ensures
            r.x == self.spec_origin_x(*available_parent_area, *parent_area, *area_size, *root_area),
            r.y == self.spec_origin_y(*available_parent_area, *parent_area, *area_size, *root_area),
    {
        match self {
            Position::Stacked => available_parent_area.origin,
            Position::Absolute(sides) => {
                let y = absolute_coordinate(sides.top, sides.bottom, parent_area.origin.y, parent_area.size.height, area_size.height);
                let x = absolute_coordinate(sides.left, sides.right, parent_area.origin.x, parent_area.size.width, area_size.width);
                Point2D::new(x, y)
            },
            Position::Global(sides) => {
                let y = global_coordinate(sides.top, sides.bottom, root_area.origin.y, root_area.size.height);
                let x = global_coordinate(sides.left, sides.right, root_area.origin.x, root_area.size.width);
                Point2D::new(x, y)
            },
        }
    }

    /// Diagnostic text: `stacked`, or the four offsets `top, right, bottom,
    /// left` with `0` for an absent side.
    pub fn pretty(&self) -> (r: String)
        ensures
            r@ == self.spec_pretty(),
    {
        match self {
            Position::Stacked => {
                let r = String::from_str("stacked");
                r
            },
            Position::Absolute(sides) => sides.pretty(),
            Position::Global(sides) => sides.pretty(),
        }
    }
}

} // verus!
