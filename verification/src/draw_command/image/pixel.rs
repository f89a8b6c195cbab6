//! Per-cell pixel representations: a cell is a single scalar or an
//! RGB-like triple of one numeric width, and every channel, whatever its
//! width, is rescaled linearly from the grid's global value range to
//! `0..=255`, truncating.

use vstd::prelude::*;

verus! {

/// A numeric channel value that a pixel grid may hold.
pub trait PixelCoreType: Sized + Copy {
    /// The numeric value of this channel.
    spec fn spec_val(self) -> int;

    /// How a value `v` rescales into `0..=255` given the global range
    /// `min..=max`.  Expects `min <= v <= max`.
    spec fn norm_spec(v: int, min: int, max: int) -> int;

    /// Whether this value is at most `other`.
    fn le(self, other: Self) -> (r: bool)
        ensures
            r == (self.spec_val() <= other.spec_val()),
    ;

    /// Rescales this value from `min..=max` to `0..=255`.
    fn normalize(self, min: Self, max: Self) -> (r: u8)
        requires
            min.spec_val() <= self.spec_val() <= max.spec_val(),
        ensures
            r as int == Self::norm_spec(self.spec_val(), min.spec_val(), max.spec_val()),
    ;
}

impl PixelCoreType for u8 {
    open spec fn spec_val(self) -> int {
        self as int
    }

    /// Linear rescale with truncation; a degenerate range yields 0.
    open spec fn norm_spec(v: int, min: int, max: int) -> int {
        if max <= min {
            0
        } else {
            (v - min) * 255 / (max - min)
        }
    }

    fn le(self, other: Self) -> (r: bool) {
        self <= other
    }

    fn normalize(self, min: Self, max: Self) -> (r: u8) {
        if max <= min {
            return 0;
        }
        let num = (self - min) as u32;
        let den = (max - min) as u32;
        let q = num * 255 / den;
        proof {
            assert(num as int * 255 / (den as int) <= 255 && (self - min) * 255 / (max - min)
                == num as int * 255 / (den as int)) by (nonlinear_arith)
                requires
                    num as int == self - min,
                    den as int == max - min,
                    0 <= num as int <= den as int,
                    den as int > 0,
            ;
        }
        q as u8
    }
}

impl PixelCoreType for i32 {
    open spec fn spec_val(self) -> int {
        self as int
    }

    /// Linear rescale with truncation; a degenerate range yields 0.
    open spec fn norm_spec(v: int, min: int, max: int) -> int {
        if max <= min {
            0
        } else {
            (v - min) * 255 / (max - min)
        }
    }

    fn le(self, other: Self) -> (r: bool) {
        self <= other
    }

    fn normalize(self, min: Self, max: Self) -> (r: u8) {
        if max <= min {
            return 0;
        }
        let num = (self as i64 - min as i64) as u64;
        let den = (max as i64 - min as i64) as u64;
        let q = num * 255 / den;
        proof {
            assert(num as int * 255 / (den as int) <= 255 && (self - min) * 255 / (max - min)
                == num as int * 255 / (den as int)) by (nonlinear_arith)
                requires
                    num as int == self - min,
                    den as int == max - min,
                    0 <= num as int <= den as int,
                    den as int > 0,
            ;
        }
        q as u8
    }
}

impl PixelCoreType for i64 {
    open spec fn spec_val(self) -> int {
        self as int
    }

    /// Linear rescale with truncation; a degenerate range yields 0.
    open spec fn norm_spec(v: int, min: int, max: int) -> int {
        if max <= min {
            0
        } else {
            (v - min) * 255 / (max - min)
        }
    }

    fn le(self, other: Self) -> (r: bool) {
        self <= other
    }

    fn normalize(self, min: Self, max: Self) -> (r: u8) {
        if max <= min {
            return 0;
        }
        let num = (self as i128 - min as i128) as u128;
        let den = (max as i128 - min as i128) as u128;
        let q = num * 255 / den;
        proof {
            assert(num as int * 255 / (den as int) <= 255 && (self - min) * 255 / (max - min)
                == num as int * 255 / (den as int)) by (nonlinear_arith)
                requires
                    num as int == self - min,
                    den as int == max - min,
                    0 <= num as int <= den as int,
                    den as int > 0,
            ;
        }
        q as u8
    }
}

/// The three output channels of a cell, given the global value range: a
/// scalar cell broadcasts its one rescaled channel; a triple rescales
/// each channel independently.
pub open spec fn spec_pixel<P: IntoPixel>(p: P, min: int, max: int) -> Seq<int> {
    let cs = p.spec_channels();
    if cs.len() == 1 {
        let v = <P::CoreType as PixelCoreType>::norm_spec(cs[0].spec_val(), min, max);
        seq![v, v, v]
    } else {
        seq![
            <P::CoreType as PixelCoreType>::norm_spec(cs[0].spec_val(), min, max),
            <P::CoreType as PixelCoreType>::norm_spec(cs[1].spec_val(), min, max),
            <P::CoreType as PixelCoreType>::norm_spec(cs[2].spec_val(), min, max),
        ]
    }
}

/// A cell of a pixel grid: one scalar channel or three.
pub trait IntoPixel: Sized {
    type CoreType: PixelCoreType;

    /// The cell's channel values, in order.
    spec fn spec_channels(self) -> Seq<Self::CoreType>;

    /// The cell's channel values; always one or three of them.
    fn channels(&self) -> (r: Vec<Self::CoreType>)
        ensures
            r@ == self.spec_channels(),
            r@.len() == 1 || r@.len() == 3,
    ;

    /// Rescales this cell into an RGB pixel, given the global range.
    fn into_pixel(&self, min: Self::CoreType, max: Self::CoreType) -> (r: [u8; 3])
        requires
            forall|i: int|
                0 <= i < self.spec_channels().len() ==> min.spec_val() <= (
                #[trigger] self.spec_channels()[i]).spec_val() <= max.spec_val(),
        ensures
            ({
                let cs = self.spec_channels();
                if cs.len() == 1 {
                    &&& r@[0] as int == <Self::CoreType as PixelCoreType>::norm_spec(
                        cs[0].spec_val(),
                        min.spec_val(),
                        max.spec_val(),
                    )
                    &&& r@[1] == r@[0]
                    &&& r@[2] == r@[0]
                } else {
                    forall|j: int|
                        0 <= j < 3 ==> #[trigger] r@[j] as int == <
                        Self::CoreType as PixelCoreType>::norm_spec(
                            cs[j].spec_val(),
                            min.spec_val(),
                            max.spec_val(),
                        )
                }
            }),
    {
        let cs = self.channels();
        if cs.len() == 1 {
            let v = cs[0].normalize(min, max);
            [v, v, v]
        } else {
            [cs[0].normalize(min, max), cs[1].normalize(min, max), cs[2].normalize(min, max)]
        }
    }
}

impl IntoPixel for u8 {
    type CoreType = u8;

    open spec fn spec_channels(self) -> Seq<u8> {
        seq![self]
    }

    fn channels(&self) -> (r: Vec<u8>) {
        let mut v: Vec<u8> = Vec::new();
        v.push(*self);
        proof {
            assert(v@ =~= seq![*self]);
        }
        v
    }
}

impl IntoPixel for i32 {
    type CoreType = i32;

    open spec fn spec_channels(self) -> Seq<i32> {
        seq![self]
    }

    fn channels(&self) -> (r: Vec<i32>) {
        let mut v: Vec<i32> = Vec::new();
        v.push(*self);
        proof {
            assert(v@ =~= seq![*self]);
        }
        v
    }
}

impl IntoPixel for i64 {
    type CoreType = i64;

    open spec fn spec_channels(self) -> Seq<i64> {
        seq![self]
    }

    fn channels(&self) -> (r: Vec<i64>) {
        let mut v: Vec<i64> = Vec::new();
        v.push(*self);
        proof {
            assert(v@ =~= seq![*self]);
        }
        v
    }
}

impl<T: PixelCoreType> IntoPixel for [T; 3] {
    type CoreType = T;

    open spec fn spec_channels(self) -> Seq<T> {
        self@
    }

    fn channels(&self) -> (r: Vec<T>) {
        let mut v: Vec<T> = Vec::new();
        v.push(self[0]);
        v.push(self[1]);
        v.push(self[2]);
        proof {
            assert(v@ =~= self@);
        }
        v
    }
}

impl<T: PixelCoreType> IntoPixel for (T, T, T) {
    type CoreType = T;

    open spec fn spec_channels(self) -> Seq<T> {
        seq![self.0, self.1, self.2]
    }

    fn channels(&self) -> (r: Vec<T>) {
        let mut v: Vec<T> = Vec::new();
        v.push(self.0);
        v.push(self.1);
        v.push(self.2);
        proof {
            assert(v@ =~= seq![self.0, self.1, self.2]);
        }
        v
    }
}

} // verus!
