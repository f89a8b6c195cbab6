//! The immutable command tree: everything a rendering backend is asked to
//! draw, together with the fluent conversions that build it.

pub mod chart;
pub mod image;
pub mod layout;

use crate::draw_command::chart::chart::Chart;
use crate::draw_command::chart::chart_builder::{
    builds_chart, is_default_chart_builder, ChartBuilder,
};
use crate::draw_command::chart::conversions::IntoChart;
use crate::draw_command::image::Image;
use crate::draw_command::layout::layout_builder::LayoutBuilder;
use crate::draw_command::layout::Layout;
use vstd::prelude::*;

verus! {

/// The top-level drawing command: nothing, one chart, one image, or a
/// recursive layout of further commands.
#[derive(Debug)]
pub enum DrawComand {
    Blank,
    Chart(Box<Chart>),
    Image(Box<Image>),
    Layout(Box<Layout>),
}

/// A value that can stand for a whole drawing command.
pub trait IntoDrawCommand: Sized {
    /// Whether the conversion is possible without loss.
    spec fn cmd_ok(self) -> bool;

    /// How the resulting command relates to this value.
    spec fn cmd_rel(self, d: DrawComand) -> bool;

    /// Converts this value into a drawing command.
    fn into_draw_command(self) -> (r: DrawComand)
        requires
            self.cmd_ok(),
        ensures
            self.cmd_rel(r),
    ;
}

impl IntoDrawCommand for DrawComand {
    open spec fn cmd_ok(self) -> bool {
        true
    }

    open spec fn cmd_rel(self, d: DrawComand) -> bool {
        d == self
    }

    fn into_draw_command(self) -> (r: DrawComand) {
        self
    }
}

impl<T: IntoChart> IntoDrawCommand for T {
    open spec fn cmd_ok(self) -> bool {
        self.chart_ok()
    }

    /// A chart command holding the converted chart.
    open spec fn cmd_rel(self, d: DrawComand) -> bool {
        d matches DrawComand::Chart(c) && self.chart_rel(*c)
    }

    fn into_draw_command(self) -> (r: DrawComand) {
        DrawComand::Chart(Box::new(self.into_chart()))
    }
}

impl IntoDrawCommand for LayoutBuilder {
    open spec fn cmd_ok(self) -> bool {
        true
    }

    /// A layout command holding the built layout.
    open spec fn cmd_rel(self, d: DrawComand) -> bool {
        d matches DrawComand::Layout(l) && *l == self.0
    }

    fn into_draw_command(self) -> (r: DrawComand) {
        DrawComand::Layout(Box::new(self.build()))
    }
}

/// Normalizes any command-convertible value into a drawing command.
pub fn plot<C: IntoDrawCommand>(cmd: C) -> (r: DrawComand)
    requires
        cmd.cmd_ok(),
    ensures
        cmd.cmd_rel(r),
{
    cmd.into_draw_command()
}

/// Wraps an image into a drawing command.
pub fn plot_image(image: Image) -> (r: DrawComand)
    ensures
        r matches DrawComand::Image(i) && *i == image,
{
    DrawComand::Image(Box::new(image))
}

/// Builds a chart command: `f` configures a fresh chart builder, and the
/// built chart becomes the command.
pub fn plot_chart<F: FnOnce(ChartBuilder) -> ChartBuilder>(f: F) -> (r: DrawComand)
    requires
        forall|b: ChartBuilder|
            is_default_chart_builder(b) ==> #[trigger] call_requires(f, (b,)),
    ensures
        exists|b0: ChartBuilder, b1: ChartBuilder, c: Chart|
            #![trigger call_ensures(f, (b0,), b1), builds_chart(b1, c)]
            {
                &&& is_default_chart_builder(b0)
                &&& call_ensures(f, (b0,), b1)
                &&& builds_chart(b1, c)
                &&& r == DrawComand::Chart(Box::new(c))
            },
{
    let b = ChartBuilder::default();
    let ghost b0 = b;
    let b = f(b);
    let ghost b1 = b;
    let c = b.build();
    let r = DrawComand::Chart(Box::new(c));
    proof {
        assert({
            &&& is_default_chart_builder(b0)
            &&& call_ensures(f, (b0,), b1)
            &&& builds_chart(b1, c)
            &&& r == DrawComand::Chart(Box::new(c))
        });
    }
    r
}

/// Builds a layout command: `f` configures a fresh layout builder, and
/// the built layout becomes the command.
pub fn plot_layout<F: FnOnce(LayoutBuilder) -> LayoutBuilder>(f: F) -> (r: DrawComand)
    requires
        forall|b: LayoutBuilder|
            (b.0 matches Layout::Box(cmd) && *cmd == DrawComand::Blank) ==> #[trigger]
            call_requires(f, (b,)),
    ensures
        exists|b0: LayoutBuilder, b1: LayoutBuilder|
            {
                &&& b0.0 matches Layout::Box(cmd) && *cmd == DrawComand::Blank
                &&& #[trigger] call_ensures(f, (b0,), b1)
                &&& r == DrawComand::Layout(Box::new(b1.0))
            },
{
    let b = LayoutBuilder::default();
    let ghost b0 = b;
    let b = f(b);
    let ghost b1 = b;
    let r = DrawComand::Layout(Box::new(b.build()));
    proof {
        assert({
            &&& b0.0 matches Layout::Box(cmd) && *cmd == DrawComand::Blank
            &&& call_ensures(f, (b0,), b1)
            &&& r == DrawComand::Layout(Box::new(b1.0))
        });
    }
    r
}

} // verus!
