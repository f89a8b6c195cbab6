//! Scalar and two-dimensional interval types used to size chart axes.
//!
//! An interval tracks a `(min, max)` extent.  Merging two intervals either
//! takes the component-wise min of mins and max of maxes
//! (`extend_to_include`, a true union) or the component-wise max of both
//! fields (`max`, used by the cross-axis reduction of chart bounds, which
//! is asymmetric by design).

use vstd::prelude::*;

verus! {

/// The smaller of two scalar values.
pub open spec fn min64(a: i64, b: i64) -> i64 {
    if a <= b {
        a
    } else {
        b
    }
}

/// The larger of two scalar values.
pub open spec fn max64(a: i64, b: i64) -> i64 {
    if a >= b {
        a
    } else {
        b
    }
}

/// A closed scalar interval `(min, max)`.  `min <= max` is not enforced by
/// construction: `max`-merging two ordered intervals can produce a value
/// whose first field exceeds its second.
#[derive(Debug, Clone, Copy, PartialEq, Eq, Structural)]
pub struct DataBound(pub i64, pub i64);

/// A value that can widen an existing [`DataBound`] to include itself.
pub trait Extendable: Sized {
    /// The interval that results from widening `bound` with `self`.
    spec fn extend_spec(self, bound: DataBound) -> DataBound;

    /// Widens `bound` so that it includes `self`.
    fn extend(self, bound: DataBound) -> (r: DataBound)
        ensures
            r == self.extend_spec(bound),
    ;
}

impl Extendable for i64 {
    open spec fn extend_spec(self, bound: DataBound) -> DataBound {
        DataBound(min64(self, bound.0), max64(self, bound.1))
    }

    fn extend(self, bound: DataBound) -> (r: DataBound) {
        DataBound(
            if self <= bound.0 {
                self
            } else {
                bound.0
            },
            if self >= bound.1 {
                self
            } else {
                bound.1
            },
        )
    }
}

impl Extendable for DataBound {
    open spec fn extend_spec(self, bound: DataBound) -> DataBound {
        DataBound(min64(self.0, bound.0), max64(self.1, bound.1))
    }

    fn extend(self, bound: DataBound) -> (r: DataBound) {
        DataBound(
            if self.0 <= bound.0 {
                self.0
            } else {
                bound.0
            },
            if self.1 >= bound.1 {
                self.1
            } else {
                bound.1
            },
        )
    }
}

impl DataBound {
    /// The interval that contains exactly one value.
    pub fn from_value(value: i64) -> (r: Self)
        ensures
            r == DataBound(value, value),
    {
        DataBound(value, value)
    }

    /// The interval `(0, 0)`.
    pub fn zero() -> (r: Self)
        ensures
            r == DataBound(0i64, 0i64),
    {
        DataBound(0, 0)
    }

    /// Component-wise maximum: the max of the two min fields and the max of
    /// the two max fields.  This is not a union.
    pub fn max(self, other: Self) -> (r: Self)
        ensures
            r == DataBound(max64(self.0, other.0), max64(self.1, other.1)),
    {
        DataBound(
            if self.0 >= other.0 {
                self.0
            } else {
                other.0
            },
            if self.1 >= other.1 {
                self.1
            } else {
                other.1
            },
        )
    }

    /// Widens this interval to include `other`.
    pub fn extend_to_include<E: Extendable>(self, other: E) -> (r: Self)
        ensures
            r == other.extend_spec(self),
    {
        other.extend(self)
    }

    /// The `(min, max)` pair.
    pub fn as_tuple(self) -> (r: (i64, i64))
        ensures
            r == (self.0, self.1),
    {
        (self.0, self.1)
    }

    /// The interval as a half-open range `min..max`.
    pub fn as_range(self) -> (r: core::ops::Range<i64>)
        ensures
            r.start == self.0,
            r.end == self.1,
    {
        self.0..self.1
    }
}

/// A pair of scalar intervals, one per axis.
#[derive(Debug, Clone, Copy, PartialEq, Eq, Structural)]
pub struct DataBound2D {
    pub x: DataBound,
    pub y: DataBound,
}

impl DataBound2D {
    /// The degenerate bound of a single point.
    pub fn from_point(p: (i64, i64)) -> (r: Self)
        ensures
            r == (DataBound2D { x: DataBound(p.0, p.0), y: DataBound(p.1, p.1) }),
    {
        DataBound2D { x: DataBound::from_value(p.0), y: DataBound::from_value(p.1) }
    }

    /// Zero intervals on both axes.
    pub fn zero() -> (r: Self)
        ensures
            r == (DataBound2D { x: DataBound(0i64, 0i64), y: DataBound(0i64, 0i64) }),
    {
        DataBound2D { x: DataBound::zero(), y: DataBound::zero() }
    }

    /// The result of `max`-merging both axes of two bounds.
    pub open spec fn spec_max(self, other: Self) -> Self {
        DataBound2D {
            x: DataBound(max64(self.x.0, other.x.0), max64(self.x.1, other.x.1)),
            y: DataBound(max64(self.y.0, other.y.0), max64(self.y.1, other.y.1)),
        }
    }

    /// Component-wise `max` merge on both axes.
    pub fn max(self, other: Self) -> (r: Self)
        ensures
            r == self.spec_max(other),
    {
        DataBound2D { x: self.x.max(other.x), y: self.y.max(other.y) }
    }

    /// Widens each axis to include the given extendable values.
    pub fn extend_to_include_bound<XE: Extendable, YE: Extendable>(self, x: XE, y: YE) -> (r: Self)
        ensures
            r == (DataBound2D { x: x.extend_spec(self.x), y: y.extend_spec(self.y) }),
    {
        DataBound2D { x: self.x.extend_to_include(x), y: self.y.extend_to_include(y) }
    }

    /// The result of widening both axes to include another 2D bound.
    pub open spec fn spec_extend(self, other: Self) -> Self {
        DataBound2D {
            x: DataBound(min64(self.x.0, other.x.0), max64(self.x.1, other.x.1)),
            y: DataBound(min64(self.y.0, other.y.0), max64(self.y.1, other.y.1)),
        }
    }

    /// Widens both axes to include `other` (a true union, unlike `max`).
    pub fn extend_to_include_bound2d(self, other: Self) -> (r: Self)
        ensures
            r == self.spec_extend(other),
    {
        DataBound2D {
            x: self.x.extend_to_include(other.x),
            y: self.y.extend_to_include(other.y),
        }
    }
}

} // verus!
