//! Fluent adjustment of an image's style.

use crate::draw_command::image::{Image, ImageStyle};
use vstd::prelude::*;

verus! {

/// A fluent wrapper around an image being configured.
pub struct ImageBuilder(pub Image);

impl ImageBuilder {
    /// Starts configuring the given image.
    pub fn from(value: Image) -> (r: Self)
        ensures
            r.0 == value,
    {
        ImageBuilder(value)
    }

    /// Replaces the image style wholesale.
    pub fn style(self, style: ImageStyle) -> (r: Self)
        ensures
            r.0 == (Image { style, ..self.0 }),
    {
        let mut b = self;
        b.0.style = style;
        b
    }

    /// Turns on axis drawing.
    pub fn axes(self) -> (r: Self)
        ensures
            r.0 == (Image { style: ImageStyle { draw_axes: true }, ..self.0 }),
    {
        let mut b = self;
        b.0.style.draw_axes = true;
        b
    }

    /// The configured image.
    pub fn build(self) -> (r: Image)
        ensures
            r == self.0,
    {
        self.0
    }
}

} // verus!
