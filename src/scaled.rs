use vstd::prelude::*;

use crate::position::Position;

verus! {

/// A layout value that follows a change of the global scale factor.
pub trait Scaled: Sized {
    /// Scaling `self` by `factor` keeps every length representable.
    spec fn scalable_by(self, factor: int) -> bool;

    /// The value after scaling by `factor`.
    spec fn scaled_by(self, factor: int) -> Self;

    fn scale(&mut self, scale_factor: i64)
        requires
            old(self).scalable_by(scale_factor as int),
        ensures
            *final(self) == old(self).scaled_by(scale_factor as int),
    ;
}

impl Scaled for Position {
    open spec fn scalable_by(self, factor: int) -> bool {
        match self {
            Position::Absolute(sides) => sides.scalable_by(factor),
            _ => true,
        }
    }

    /// Only `Absolute` offsets are scaled: `Global` offsets are already in
    /// final units, and `Stacked` has none.
    open spec fn scaled_by(self, factor: int) -> Position {
        match self {
            Position::Absolute(sides) => Position::Absolute(sides.scaled_by(factor)),
            _ => self,
        }
    }

    fn scale(&mut self, scale_factor: i64) {
        match *self {
            Position::Absolute(sides) => {
                *self = Position::Absolute(sides.scaled(scale_factor));
            },
            _ => {},
        }
    }
}

} // verus!
