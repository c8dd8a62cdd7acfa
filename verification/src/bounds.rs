//! The box that encloses the points of a file.

use crate::binary64::{is_nan, less, lt, INFINITY, NEG_INFINITY};
use vstd::prelude::*;

verus! {

/// Three real values, one for each axis, as binary64 bit patterns.
#[derive(Clone, Copy, Debug, PartialEq, Eq, Structural)]
pub struct Vector {
    /// The value on the x axis.
    pub x: u64,
    /// The value on the y axis.
    pub y: u64,
    /// The value on the z axis.
    pub z: u64,
}

/// The least and the greatest value on each axis.
#[derive(Clone, Copy, Debug, PartialEq, Eq, Structural)]
pub struct Bounds {
    /// The least value on each axis.
    pub min: Vector,
    /// The greatest value on each axis.
    pub max: Vector,
}

/// The lesser of a running minimum and a new value: the new value where it
/// is less, the running minimum otherwise. A NaN is less than nothing, so it
/// never replaces the minimum.
pub open spec fn lower(least: u64, value: u64) -> u64 {
    if less(value, least) {
        value
    } else {
        least
    }
}

/// The greater of a running maximum and a new value.
pub open spec fn upper(greatest: u64, value: u64) -> u64 {
    if less(greatest, value) {
        value
    } else {
        greatest
    }
}

impl Bounds {
    /// The bounds of no point at all: every minimum is positive infinity and
    /// every maximum is negative infinity.
    pub open spec fn empty() -> Bounds {
        Bounds {
            min: Vector { x: INFINITY, y: INFINITY, z: INFINITY },
            max: Vector { x: NEG_INFINITY, y: NEG_INFINITY, z: NEG_INFINITY },
        }
    }

    /// The bounds widened to enclose one more position.
    pub open spec fn grown(self, p: Vector) -> Bounds {
        Bounds {
            min: Vector {
                x: lower(self.min.x, p.x),
                y: lower(self.min.y, p.y),
                z: lower(self.min.z, p.z),
            },
            max: Vector {
                x: upper(self.max.x, p.x),
                y: upper(self.max.y, p.y),
                z: upper(self.max.z, p.z),
            },
        }
    }

    /// Whether the position lies inside the bounds on every axis: no
    /// coordinate is less than the minimum or greater than the maximum.
    pub open spec fn encloses(self, p: Vector) -> bool {
        &&& !less(p.x, self.min.x) && !less(self.max.x, p.x)
        &&& !less(p.y, self.min.y) && !less(self.max.y, p.y)
        &&& !less(p.z, self.min.z) && !less(self.max.z, p.z)
    }

    /// Whether no bound is a NaN.
    pub open spec fn is_ordered(self) -> bool {
        &&& !is_nan(self.min.x) && !is_nan(self.min.y) && !is_nan(self.min.z)
        &&& !is_nan(self.max.x) && !is_nan(self.max.y) && !is_nan(self.max.z)
    }

    /// Widens the bounds to enclose one more position.
    pub fn grow(&mut self, p: Vector)
        ensures
            *final(self) == old(self).grown(p),
        no_unwind
    {
        if lt(p.x, self.min.x) {
            self.min.x = p.x;
        }
        if lt(p.y, self.min.y) {
            self.min.y = p.y;
        }
        if lt(p.z, self.min.z) {
            self.min.z = p.z;
        }
        if lt(self.max.x, p.x) {
            self.max.x = p.x;
        }
        if lt(self.max.y, p.y) {
            self.max.y = p.y;
        }
        if lt(self.max.z, p.z) {
            self.max.z = p.z;
        }
    }
}

impl Default for Bounds {
    /// The bounds of no point at all.
    fn default() -> (bounds: Bounds)
        ensures
            bounds == Bounds::empty(),
    {
        Bounds {
            min: Vector { x: INFINITY, y: INFINITY, z: INFINITY },
            max: Vector { x: NEG_INFINITY, y: NEG_INFINITY, z: NEG_INFINITY },
        }
    }
}

/// The bounds of a sequence of positions: the empty bounds, grown by each
/// position in turn.
pub open spec fn bounds_of(positions: Seq<Vector>) -> Bounds
    decreases positions.len(),
{
    if positions.len() == 0 {
        Bounds::empty()
    } else {
        bounds_of(positions.drop_last()).grown(positions.last())
    }
}

/// The bounds of a sequence of positions are its minimum and maximum on each
/// axis: no bound is a NaN, every position lies inside the bounds, and each
/// bound is the coordinate of one of the positions unless it still is the
/// infinity that the empty bounds start from.
pub proof fn lemma_bounds_are_extremes(positions: Seq<Vector>)
    ensures
        bounds_of(positions).is_ordered(),
        forall|i: int|
            0 <= i < positions.len() ==> bounds_of(positions).encloses(#[trigger] positions[i]),
        bounds_of(positions).min.x == INFINITY || exists|i: int|
            0 <= i < positions.len() && (#[trigger] positions[i]).x == bounds_of(positions).min.x,
        bounds_of(positions).min.y == INFINITY || exists|i: int|
            0 <= i < positions.len() && (#[trigger] positions[i]).y == bounds_of(positions).min.y,
        bounds_of(positions).min.z == INFINITY || exists|i: int|
            0 <= i < positions.len() && (#[trigger] positions[i]).z == bounds_of(positions).min.z,
        bounds_of(positions).max.x == NEG_INFINITY || exists|i: int|
            0 <= i < positions.len() && (#[trigger] positions[i]).x == bounds_of(positions).max.x,
        bounds_of(positions).max.y == NEG_INFINITY || exists|i: int|
            0 <= i < positions.len() && (#[trigger] positions[i]).y == bounds_of(positions).max.y,
        bounds_of(positions).max.z == NEG_INFINITY || exists|i: int|
            0 <= i < positions.len() && (#[trigger] positions[i]).z == bounds_of(positions).max.z,
    decreases positions.len(),
{
    if positions.len() > 0 {
        let front = positions.drop_last();
        let p = positions.last();
        let last = positions.len() - 1;
        let before = bounds_of(front);
        let after = bounds_of(positions);
        lemma_bounds_are_extremes(front);
        assert(positions[last] == p);
        assert forall|i: int| 0 <= i < positions.len() implies after.encloses(
            #[trigger] positions[i],
        ) by {
            if i < last {
                assert(front[i] == positions[i]);
                assert(before.encloses(front[i]));
            }
        }
        if after.min.x != INFINITY && after.min.x != p.x {
            let i = choose|i: int| 0 <= i < front.len() && (#[trigger] front[i]).x == before.min.x;
            assert(positions[i].x == after.min.x);
        }
        if after.min.y != INFINITY && after.min.y != p.y {
            let i = choose|i: int| 0 <= i < front.len() && (#[trigger] front[i]).y == before.min.y;
            assert(positions[i].y == after.min.y);
        }
        if after.min.z != INFINITY && after.min.z != p.z {
            let i = choose|i: int| 0 <= i < front.len() && (#[trigger] front[i]).z == before.min.z;
            assert(positions[i].z == after.min.z);
        }
        if after.max.x != NEG_INFINITY && after.max.x != p.x {
            let i = choose|i: int| 0 <= i < front.len() && (#[trigger] front[i]).x == before.max.x;
            assert(positions[i].x == after.max.x);
        }
        if after.max.y != NEG_INFINITY && after.max.y != p.y {
            let i = choose|i: int| 0 <= i < front.len() && (#[trigger] front[i]).y == before.max.y;
            assert(positions[i].y == after.max.y);
        }
        if after.max.z != NEG_INFINITY && after.max.z != p.z {
            let i = choose|i: int| 0 <= i < front.len() && (#[trigger] front[i]).z == before.max.z;
            assert(positions[i].z == after.max.z);
        }
    }
}

} // verus!
