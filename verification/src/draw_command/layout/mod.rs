//! The recursive layout tree: a drawing area is split into bands or a
//! grid, and each part draws one command.

pub mod layout_builder;

use crate::draw_command::DrawComand;
use vstd::prelude::*;

verus! {

/// How a grid resolves its cell counts: a fixed number of rows with as
/// many columns as needed, or the other way around.
#[derive(Debug, Clone, Copy, PartialEq, Eq, Structural)]
pub enum GridConstraint {
    Rows(usize),
    Columns(usize),
}

/// The ceiling of `n / d` for a positive divisor.
pub open spec fn ceil_div(n: int, d: int) -> int {
    n / d + (if n % d == 0 {
        0int
    } else {
        1int
    })
}

impl GridConstraint {
    /// Resolves the `(rows, cols)` of a grid holding `num_elements`
    /// cells: the fixed side is kept, the other is the ceiling division
    /// of the element count by it.
    pub fn calculate_rows_cols(&self, num_elements: usize) -> (r: (usize, usize))
        requires
            (match *self {
                GridConstraint::Rows(rows) => rows,
                GridConstraint::Columns(cols) => cols,
            }) > 0,
        ensures
            r == (match *self {
                GridConstraint::Rows(rows) => (rows, ceil_div(num_elements as int, rows as int) as usize),
                GridConstraint::Columns(cols) => (
                    ceil_div(num_elements as int, cols as int) as usize,
                    cols,
                ),
            }),
    {
        match *self {
            Self::Rows(rows) => {
                let q = num_elements / rows;
                let extra: usize = if num_elements % rows == 0 {
                    0
                } else {
                    proof {
                        assert(num_elements / rows < num_elements) by (nonlinear_arith)
                            requires
                                rows >= 1,
                                num_elements % rows != 0,
                        ;
                    }
                    1
                };
                (rows, q + extra)
            },
            Self::Columns(cols) => {
                let q = num_elements / cols;
                let extra: usize = if num_elements % cols == 0 {
                    0
                } else {
                    proof {
                        assert(num_elements / cols < num_elements) by (nonlinear_arith)
                            requires
                                cols >= 1,
                                num_elements % cols != 0,
                        ;
                    }
                    1
                };
                (q + extra, cols)
            },
        }
    }
}

/// A recursive drawing layout: a single boxed command, equal vertical or
/// horizontal bands, or a constrained grid.  Band and grid splits pair
/// commands with regions zip-shortest: surplus regions stay blank and
/// surplus commands are dropped.
#[derive(Debug)]
pub enum Layout {
    Box(Box<DrawComand>),
    VSplit(Vec<DrawComand>),
    HSplit(Vec<DrawComand>),
    Grid { commands: Vec<DrawComand>, constraint: GridConstraint },
}

} // verus!
