use vstd::prelude::*;

verus! {

/// A point of the plane. Each coordinate is a single-precision number, held
/// as its IEEE-754 bit pattern, so two points are equal exactly when both
/// coordinates agree bit for bit.
#[derive(Clone, Copy, Debug, PartialEq, Eq, Structural)]
pub struct Point {
    pub x: u32,
    pub y: u32,
}

/// One leg of a right triangle: the difference `minuend - subtrahend` of two
/// single-precision numbers, left for the caller to take.
#[derive(Clone, Copy, Debug, PartialEq, Eq, Structural)]
pub struct Leg {
    pub minuend: u32,
    pub subtrahend: u32,
}

/// The legs of the right triangle whose hypotenuse is the segment between
/// two points: `opposite` runs along the x axis, `adjacent` along the y axis.
#[derive(Clone, Copy, Debug, PartialEq, Eq, Structural)]
pub struct Legs {
    pub opposite: Leg,
    pub adjacent: Leg,
}

impl Point {
    /// The legs under the segment from `self` to `other`: the opposite leg
    /// is `self.x - other.x`, the adjacent leg is `self.y - other.y`.
    pub open spec fn spec_legs_to(self, other: Point) -> Legs {
        Legs {
            opposite: Leg { minuend: self.x, subtrahend: other.x },
            adjacent: Leg { minuend: self.y, subtrahend: other.y },
        }
    }

    /// Decomposes the segment from `self` to `other` into its two legs.
    pub fn legs_to(&self, other: &Point) -> (legs: Legs)
        ensures
            legs == self.spec_legs_to(*other),
    {
        Legs {
            opposite: Leg { minuend: self.x, subtrahend: other.x },
            adjacent: Leg { minuend: self.y, subtrahend: other.y },
        }
    }
}

} // verus!
