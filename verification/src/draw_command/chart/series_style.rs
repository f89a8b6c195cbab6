//! The visual style of a series.

use crate::colors::Rgba;
use vstd::prelude::*;

verus! {

/// The style of a plotted series: its color.
#[derive(Debug, Clone, Copy, PartialEq, Eq, Structural)]
pub struct SeriesStyle {
    pub color: Rgba,
}

impl core::default::Default for SeriesStyle {
    /// A fully transparent black, replaced during chart building when the
    /// series takes an automatic palette color.
    fn default() -> (r: Self)
        ensures
            r == (SeriesStyle { color: Rgba { r: 0, g: 0, b: 0, a: 0 } }),
    {
        SeriesStyle { color: Rgba { r: 0, g: 0, b: 0, a: 0 } }
    }
}

} // verus!
