//! Building an image from a rectangular (possibly ragged) grid of cells:
//! one shared min/max scan over every channel of every cell, a linear
//! rescale of each channel to `0..=255`, black for missing cells, and an
//! immediate PNG encoding of the resulting RGB buffer.

use crate::draw_command::image::pixel::{spec_pixel, IntoPixel, PixelCoreType};
use vstd::prelude::*;

verus! {

/// The view of a grid as a sequence of rows.
pub open spec fn grid_view<P: IntoPixel>(g: Vec<Vec<P>>) -> Seq<Seq<P>> {
    g@.map_values(|row: Vec<P>| row@)
}

/// The channel values of the first `c` cells of a row, concatenated.
pub open spec fn row_channels<P: IntoPixel>(row: Seq<P>, c: int) -> Seq<P::CoreType>
    decreases c,
{
    if c <= 0 {
        Seq::empty()
    } else {
        row_channels(row, c - 1) + row[c - 1].spec_channels()
    }
}

/// The channel values of the first `r` rows of a grid, concatenated.
pub open spec fn grid_channels<P: IntoPixel>(g: Seq<Seq<P>>, r: int) -> Seq<P::CoreType>
    decreases r,
{
    if r <= 0 {
        Seq::empty()
    } else {
        grid_channels(g, r - 1) + row_channels(g[r - 1], g[r - 1].len() as int)
    }
}

/// The smallest channel value of a non-empty channel sequence.
pub open spec fn seq_val_min<C: PixelCoreType>(cs: Seq<C>) -> int
    decreases cs.len(),
{
    if cs.len() <= 1 {
        cs[0].spec_val()
    } else {
        let m = seq_val_min(cs.drop_last());
        if cs.last().spec_val() < m {
            cs.last().spec_val()
        } else {
            m
        }
    }
}

/// The largest channel value of a non-empty channel sequence.
pub open spec fn seq_val_max<C: PixelCoreType>(cs: Seq<C>) -> int
    decreases cs.len(),
{
    if cs.len() <= 1 {
        cs[0].spec_val()
    } else {
        let m = seq_val_max(cs.drop_last());
        if cs.last().spec_val() > m {
            cs.last().spec_val()
        } else {
            m
        }
    }
}

/// The global minimum and maximum bound every element of the sequence.
pub proof fn lemma_seq_val_bounds<C: PixelCoreType>(cs: Seq<C>, k: int)
    requires
        0 <= k < cs.len(),
    ensures
        seq_val_min(cs) <= cs[k].spec_val() <= seq_val_max(cs),
    decreases cs.len(),
{
    if cs.len() > 1 && k < cs.len() - 1 {
        lemma_seq_val_bounds(cs.drop_last(), k);
        assert(cs.drop_last()[k] == cs[k]);
    }
}

/// The length of the longest of the first `r` rows.
pub open spec fn max_row_len<P: IntoPixel>(g: Seq<Seq<P>>, r: int) -> int
    decreases r,
{
    if r <= 0 {
        0
    } else {
        let m = max_row_len(g, r - 1);
        if g[r - 1].len() > m {
            g[r - 1].len() as int
        } else {
            m
        }
    }
}

/// A grid with at least one channel value has a non-empty row.
pub proof fn lemma_channels_need_cols<P: IntoPixel>(g: Seq<Seq<P>>, r: int)
    requires
        grid_channels(g, r).len() > 0,
    ensures
        max_row_len(g, r) >= 1,
    decreases r,
{
    if r > 0 {
        if grid_channels(g, r - 1).len() > 0 {
            lemma_channels_need_cols(g, r - 1);
        } else {
            lemma_row_channels_need_cells(g[r - 1], g[r - 1].len() as int);
        }
    }
}

/// A row with at least one channel value has at least one cell.
pub proof fn lemma_row_channels_need_cells<P: IntoPixel>(row: Seq<P>, c: int)
    requires
        row_channels(row, c).len() > 0,
    ensures
        c >= 1,
    decreases c,
{
}

/// Every channel of a cell within the first `c` cells of a row appears in
/// the row's channel concatenation.
pub proof fn lemma_row_channels_contain<P: IntoPixel>(row: Seq<P>, c: int, i: int, j: int)
    requires
        0 <= i < c,
        0 <= j < row[i].spec_channels().len(),
    ensures
        exists|k: int|
            0 <= k < row_channels(row, c).len() && #[trigger] row_channels(row, c)[k]
                == row[i].spec_channels()[j],
    decreases c,
{
    if i == c - 1 {
        let k = row_channels(row, c - 1).len() + j;
        assert(row_channels(row, c)[k] == row[i].spec_channels()[j]);
    } else {
        lemma_row_channels_contain(row, c - 1, i, j);
        let k = choose|k: int|
            0 <= k < row_channels(row, c - 1).len() && #[trigger] row_channels(row, c - 1)[k]
                == row[i].spec_channels()[j];
        assert(row_channels(row, c)[k] == row[i].spec_channels()[j]);
    }
}

/// Every channel of a cell within the first `r` rows appears in the
/// grid's channel concatenation.
pub proof fn lemma_grid_channels_contain<P: IntoPixel>(
    g: Seq<Seq<P>>,
    r: int,
    i: int,
    c: int,
    j: int,
)
    requires
        0 <= i < r,
        0 <= c < g[i].len(),
        0 <= j < g[i][c].spec_channels().len(),
    ensures
        exists|k: int|
            0 <= k < grid_channels(g, r).len() && #[trigger] grid_channels(g, r)[k]
                == g[i][c].spec_channels()[j],
    decreases r,
{
    if i == r - 1 {
        lemma_row_channels_contain(g[i], g[i].len() as int, c, j);
        let kr = choose|kr: int|
            0 <= kr < row_channels(g[i], g[i].len() as int).len() && #[trigger] row_channels(
                g[i],
                g[i].len() as int,
            )[kr] == g[i][c].spec_channels()[j];
        let k = grid_channels(g, r - 1).len() + kr;
        assert(grid_channels(g, r)[k] == g[i][c].spec_channels()[j]);
    } else {
        lemma_grid_channels_contain(g, r - 1, i, c, j);
        let k = choose|k: int|
            0 <= k < grid_channels(g, r - 1).len() && #[trigger] grid_channels(g, r - 1)[k]
                == g[i][c].spec_channels()[j];
        assert(grid_channels(g, r)[k] == g[i][c].spec_channels()[j]);
    }
}

/// The three output bytes of one cell.
pub open spec fn cell_rgb<P: IntoPixel>(p: P, mn: int, mx: int) -> Seq<u8> {
    Seq::new(3, |j: int| spec_pixel(p, mn, mx)[j] as u8)
}

/// The output bytes of the first `c` columns of one row: rescaled cells
/// where the row has them, black where it is shorter.
pub open spec fn row_rgb<P: IntoPixel>(row: Seq<P>, c: int, mn: int, mx: int) -> Seq<u8>
    decreases c,
{
    if c <= 0 {
        Seq::empty()
    } else {
        row_rgb(row, c - 1, mn, mx) + (if c - 1 < row.len() {
            cell_rgb(row[c - 1], mn, mx)
        } else {
            seq![0u8, 0u8, 0u8]
        })
    }
}

/// The row-major output bytes of the first `r` rows of a grid, `cols`
/// columns each.
pub open spec fn grid_rgb<P: IntoPixel>(g: Seq<Seq<P>>, r: int, cols: int, mn: int, mx: int) -> Seq<
    u8,
>
    decreases r,
{
    if r <= 0 {
        Seq::empty()
    } else {
        grid_rgb(g, r - 1, cols, mn, mx) + row_rgb(g[r - 1], cols, mn, mx)
    }
}

pub proof fn lemma_row_rgb_len<P: IntoPixel>(row: Seq<P>, c: int, mn: int, mx: int)
    requires
        c >= 0,
    ensures
        row_rgb(row, c, mn, mx).len() == 3 * c,
    decreases c,
{
    if c > 0 {
        lemma_row_rgb_len(row, c - 1, mn, mx);
    }
}

pub proof fn lemma_grid_rgb_len<P: IntoPixel>(g: Seq<Seq<P>>, r: int, cols: int, mn: int, mx: int)
    requires
        r >= 0,
        cols >= 0,
    ensures
        grid_rgb(g, r, cols, mn, mx).len() == 3 * r * cols,
    decreases r,
{
    if r > 0 {
        lemma_grid_rgb_len(g, r - 1, cols, mn, mx);
        lemma_row_rgb_len(g[r - 1], cols, mn, mx);
        assert(3 * r * cols == 3 * (r - 1) * cols + 3 * cols) by (nonlinear_arith);
    } else {
        assert(3 * r * cols == 0) by (nonlinear_arith)
            requires
                r == 0,
        ;
    }
}

} // verus!
