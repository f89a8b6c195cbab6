//! Fluent construction of a layout.  Each method replaces the layout
//! wholesale: the builder is not cumulative, the last call wins.

use crate::draw_command::layout::{GridConstraint, Layout};
use crate::draw_command::{DrawComand, IntoDrawCommand};
use vstd::prelude::*;

verus! {

/// A source of drawing commands that a caller may drain.
pub trait DrawComandGenerator {
    /// Produces the next command batch.
    fn generate(&mut self);
}

/// A wrapper around one layout value being chosen.
pub struct LayoutBuilder(pub Layout);

impl core::default::Default for LayoutBuilder {
    /// A single blank command.
    fn default() -> (r: Self)
        ensures
            r.0 matches Layout::Box(cmd) && *cmd == DrawComand::Blank,
    {
        LayoutBuilder(Layout::Box(Box::new(DrawComand::Blank)))
    }
}

impl LayoutBuilder {
    /// Replaces the layout with a single boxed command.
    pub fn boxed<C: IntoDrawCommand>(self, cmd: C) -> (r: Self)
        requires
            cmd.cmd_ok(),
        ensures
            r.0 matches Layout::Box(c) && cmd.cmd_rel(*c),
    {
        LayoutBuilder(Layout::Box(Box::new(cmd.into_draw_command())))
    }

    /// Replaces the layout with equal-height horizontal bands, top to
    /// bottom, one command per band.
    pub fn vsplit(self, cmds: Vec<DrawComand>) -> (r: Self)
        ensures
            r.0 matches Layout::VSplit(cs) && cs@ == cmds@,
    {
        LayoutBuilder(Layout::VSplit(cmds))
    }

    /// Replaces the layout with equal-width vertical bands, left to
    /// right, one command per band.
    pub fn hsplit(self, cmds: Vec<DrawComand>) -> (r: Self)
        ensures
            r.0 matches Layout::HSplit(cs) && cs@ == cmds@,
    {
        LayoutBuilder(Layout::HSplit(cmds))
    }

    /// Replaces the layout with a grid of the given row count.
    pub fn grid_with_rows(self, cmds: Vec<DrawComand>, rows: usize) -> (r: Self)
        ensures
            r.0 matches Layout::Grid { commands, constraint } && commands@ == cmds@ && constraint
                == GridConstraint::Rows(rows),
    {
        LayoutBuilder(Layout::Grid { commands: cmds, constraint: GridConstraint::Rows(rows) })
    }

    /// Replaces the layout with a grid of the given column count.
    pub fn grid_with_cols(self, cmds: Vec<DrawComand>, cols: usize) -> (r: Self)
        ensures
            r.0 matches Layout::Grid { commands, constraint } && commands@ == cmds@ && constraint
                == GridConstraint::Columns(cols),
    {
        LayoutBuilder(Layout::Grid { commands: cmds, constraint: GridConstraint::Columns(cols) })
    }

    /// The chosen layout.
    pub fn build(self) -> (r: Layout)
        ensures
            r == self.0,
    {
        self.0
    }
}

} // verus!
