//! The image model: a rectangular pixel buffer kept in fully encoded
//! form, built from a grid of per-cell values by min/max-based linear
//! rescaling to 8-bit channels.

pub mod builder;
pub mod grid;
pub mod pixel;

use crate::draw_command::image::grid::{
    cell_rgb, grid_channels, grid_rgb, grid_view, lemma_channels_need_cols,
    lemma_grid_channels_contain, lemma_grid_rgb_len, lemma_seq_val_bounds, max_row_len,
    row_channels, row_rgb, seq_val_max, seq_val_min,
};
use crate::draw_command::image::pixel::{IntoPixel, PixelCoreType};
use vstd::prelude::*;

verus! {

/// The encoding of an image buffer.
#[derive(Debug, Clone, Copy, PartialEq, Eq, Structural)]
pub enum ImageFormat {
    /// No compression, raw pixel data.
    Buffer,
    Jpeg,
    Png,
}

/// How an image is presented.
#[derive(Debug, Clone, Copy, PartialEq, Eq, Structural)]
pub struct ImageStyle {
    pub draw_axes: bool,
}

impl core::default::Default for ImageStyle {
    /// No axes.
    fn default() -> (r: Self)
        ensures
            r == (ImageStyle { draw_axes: false }),
    {
        ImageStyle { draw_axes: false }
    }
}

/// An image: an encoded pixel buffer with its dimensions and style.  The
/// buffer always holds a fully encoded image; the model never stores raw
/// decoded pixels.
#[derive(Debug, Clone)]
pub struct Image {
    pub title: String,
    pub buffer: Vec<u8>,
    pub format: ImageFormat,
    pub rows: usize,
    pub cols: usize,
    pub style: ImageStyle,
}

/// The PNG stream that encodes a row-major RGB8 buffer of the given
/// dimensions.
pub uninterp spec fn png_data(rgb: Seq<u8>, rows: int, cols: int) -> Seq<u8>;

/// Relies on `image::ImageBuffer::from_raw` and `write_to` with the PNG
/// format: encoding an RGB8 buffer of matching size is deterministic in
/// the buffer and the dimensions.
#[verifier::external_body]
fn encode_png_rgb(rgb: Vec<u8>, rows: u32, cols: u32) -> (r: Vec<u8>)
    requires
        0 < rows <= 0x7fff_ffff,
        0 < cols <= 0x7fff_ffff,
        rgb@.len() == 3 * rows * cols,
    ensures
        r@ == png_data(rgb@, rows as int, cols as int),
{
    let img: image::RgbImage = image::ImageBuffer::from_raw(cols, rows, rgb).unwrap();
    let mut out: Vec<u8> = Vec::new();
    img.write_to(&mut std::io::Cursor::new(&mut out), image::ImageFormat::Png).unwrap();
    out
}

/// Relies on `image::io::Reader` with its decoding limits disabled: a
/// stream written by the PNG encoder decodes to an image with the
/// encoded height and width.  Returns `(height, width)`, or `None` when
/// the buffer does not decode.
#[verifier::external_body]
fn decode_png_dims(buffer: &Vec<u8>) -> (r: Option<(u32, u32)>)
    ensures
        forall|rgb: Seq<u8>, rows: u32, cols: u32|
            (0 < rows && 0 < cols && rgb.len() == 3 * rows * cols && buffer@ == #[trigger]
            png_data(rgb, rows as int, cols as int)) ==> r == Some((rows, cols)),
{
    let mut reader = match image::io::Reader::new(
        std::io::Cursor::new(buffer.as_slice()),
    ).with_guessed_format() {
        Ok(reader) => reader,
        Err(_) => return None,
    };
    reader.no_limits();
    match reader.decode() {
        Ok(img) => Some((img.height(), img.width())),
        Err(_) => None,
    }
}

#[verifier::external_type_specification]
#[verifier::external_body]
pub struct ExDynamicImage(image::DynamicImage);


impl Image {
    /// Whether this image's buffer is the PNG encoding of an RGB buffer
    /// matching its `rows` and `cols`, as every grid-built image is.
    pub open spec fn grid_encoded(self) -> bool {
        exists|rgb: Seq<u8>|
            {
                &&& 0 < self.rows <= 0x7fff_ffff
                &&& 0 < self.cols <= 0x7fff_ffff
                &&& rgb.len() == 3 * self.rows * self.cols
                &&& self.buffer@ == #[trigger] png_data(rgb, self.rows as int, self.cols as int)
            }
    }

    /// Builds an image from a grid of cells: one shared scan finds the
    /// global channel minimum and maximum, every cell is rescaled to an
    /// RGB pixel, missing cells in ragged rows become black, and the
    /// resulting buffer is encoded to PNG at once.
    ///
    /// The image keeps the grid's dimensions: `rows` is the number of
    /// grid rows, `cols` the length of its longest row.
    pub fn from_grid<P: IntoPixel>(grid: Vec<Vec<P>>) -> (r: Image)
        requires
            grid@.len() > 0,
            grid@.len() <= 0x7fff_ffff,
            max_row_len(grid_view(grid), grid@.len() as int) <= 0x7fff_ffff,
            grid_channels(grid_view(grid), grid@.len() as int).len() > 0,
        ensures
            r.rows == grid@.len(),
            r.cols == max_row_len(grid_view(grid), grid@.len() as int),
            r.format == ImageFormat::Png,
            r.title@ == Seq::<char>::empty(),
            r.style == (ImageStyle { draw_axes: false }),
            r.buffer@ == png_data(
                grid_rgb(
                    grid_view(grid),
                    grid@.len() as int,
                    max_row_len(grid_view(grid), grid@.len() as int),
                    seq_val_min(grid_channels(grid_view(grid), grid@.len() as int)),
                    seq_val_max(grid_channels(grid_view(grid), grid@.len() as int)),
                ),
                grid@.len() as int,
                max_row_len(grid_view(grid), grid@.len() as int),
            ),
            r.grid_encoded(),
    {
        let ghost gv = grid_view(grid);
        let nrows = grid.len();

        // Collect every channel value of every cell, in row-major order.
        let mut vals: Vec<P::CoreType> = Vec::new();
        for i in 0..nrows
            invariant
                nrows == grid@.len(),
                gv == grid_view(grid),
                gv.len() == grid@.len(),
                forall|t: int| 0 <= t < gv.len() ==> gv[t] == grid@[t]@,
                vals@ == grid_channels(gv, i as int),
        {
            let row = &grid[i];
            let ncells = row.len();
            for c in 0..ncells
                invariant
                    nrows == grid@.len(),
                    gv == grid_view(grid),
                    forall|t: int| 0 <= t < gv.len() ==> gv[t] == grid@[t]@,
                    i < gv.len(),
                    row == &grid[i as int],
                    ncells == row@.len(),
                    vals@ == grid_channels(gv, i as int) + row_channels(gv[i as int], c as int),
            {
                let mut cs = row[c].channels();
                vals.append(&mut cs);
            }
            proof {
                assert(vals@ == grid_channels(gv, i + 1));
            }
        }
        proof {
            assert(vals@ == grid_channels(gv, gv.len() as int));
        }

        // One shared scale across all channels and all cells.
        let mut mn: P::CoreType = vals[0];
        let mut mx: P::CoreType = vals[0];
        let nvals = vals.len();
        proof {
            assert(vals@.subrange(0, 1).len() == 1);
            assert(vals@.subrange(0, 1)[0] == vals@[0]);
        }
        for k in 1..nvals
            invariant
                nvals == vals@.len(),
                nvals > 0,
                mn.spec_val() == seq_val_min(vals@.subrange(0, k as int)),
                mx.spec_val() == seq_val_max(vals@.subrange(0, k as int)),
        {
            let v = vals[k];
            proof {
                let cur = vals@.subrange(0, k + 1);
                assert(cur.drop_last() =~= vals@.subrange(0, k as int));
                assert(cur.last() == v);
            }
            if v.le(mn) {
                mn = v;
            }
            if mx.le(v) {
                mx = v;
            }
        }
        proof {
            assert(vals@.subrange(0, nvals as int) =~= vals@);
        }
        let ghost mnv = seq_val_min(grid_channels(gv, gv.len() as int));
        let ghost mxv = seq_val_max(grid_channels(gv, gv.len() as int));

        // The number of columns is the longest row's length.
        let mut cols: usize = 0;
        for i in 0..nrows
            invariant
                nrows == grid@.len(),
                gv == grid_view(grid),
                forall|t: int| 0 <= t < gv.len() ==> gv[t] == grid@[t]@,
                cols == max_row_len(gv, i as int),
        {
            let len = grid[i].len();
            if len > cols {
                cols = len;
            }
        }
        proof {
            lemma_channels_need_cols(gv, gv.len() as int);
        }

        // Rescale each cell; rows shorter than `cols` are padded black.
        let mut buf: Vec<u8> = Vec::new();
        for i in 0..nrows
            invariant
                nrows == grid@.len(),
                gv == grid_view(grid),
                gv.len() == grid@.len(),
                forall|t: int| 0 <= t < gv.len() ==> gv[t] == grid@[t]@,
                mn.spec_val() == mnv,
                mx.spec_val() == mxv,
                mnv == seq_val_min(grid_channels(gv, gv.len() as int)),
                mxv == seq_val_max(grid_channels(gv, gv.len() as int)),
                buf@ == grid_rgb(gv, i as int, cols as int, mnv, mxv),
        {
            let row = &grid[i];
            let ncells = row.len();
            for c in 0..cols
                invariant
                    nrows == grid@.len(),
                    gv == grid_view(grid),
                    gv.len() == grid@.len(),
                    forall|t: int| 0 <= t < gv.len() ==> gv[t] == grid@[t]@,
                    i < gv.len(),
                    row == &grid[i as int],
                    ncells == row@.len(),
                    mn.spec_val() == mnv,
                    mx.spec_val() == mxv,
                    mnv == seq_val_min(grid_channels(gv, gv.len() as int)),
                    mxv == seq_val_max(grid_channels(gv, gv.len() as int)),
                    buf@ == grid_rgb(gv, i as int, cols as int, mnv, mxv) + row_rgb(
                        gv[i as int],
                        c as int,
                        mnv,
                        mxv,
                    ),
            {
                if c < ncells {
                    proof {
                        assert forall|j: int|
                            0 <= j < row@[c as int].spec_channels().len() implies mn.spec_val()
                            <= (#[trigger] row@[c as int].spec_channels()[j]).spec_val()
                            <= mx.spec_val() by {
                            lemma_grid_channels_contain(gv, gv.len() as int, i as int, c as int, j);
                            let k = choose|k: int|
                                0 <= k < grid_channels(gv, gv.len() as int).len() && #[trigger]
                                grid_channels(gv, gv.len() as int)[k] == gv[i as int][c as int]
                                    .spec_channels()[j];
                            lemma_seq_val_bounds(grid_channels(gv, gv.len() as int), k);
                        }
                    }
                    let px = row[c].into_pixel(mn, mx);
                    let ghost pre = buf@;
                    buf.push(px[0]);
                    buf.push(px[1]);
                    buf.push(px[2]);
                    proof {
                        let cell = gv[i as int][c as int];
                        assert(buf@ =~= pre + cell_rgb(cell, mnv, mxv));
                    }
                } else {
                    let ghost pre = buf@;
                    buf.push(0);
                    buf.push(0);
                    buf.push(0);
                    proof {
                        assert(buf@ =~= pre + seq![0u8, 0u8, 0u8]);
                    }
                }
            }
            proof {
                assert(buf@ == grid_rgb(gv, i + 1, cols as int, mnv, mxv));
            }
        }
        proof {
            lemma_grid_rgb_len(gv, gv.len() as int, cols as int, mnv, mxv);
        }
        let buffer = encode_png_rgb(buf, nrows as u32, cols as u32);
        let r = Image {
            title: String::new(),
            buffer,
            format: ImageFormat::Png,
            rows: nrows,
            cols,
            style: ImageStyle::default(),
        };
        proof {
            let rgb = grid_rgb(gv, gv.len() as int, cols as int, mnv, mxv);
            assert(rgb.len() == 3 * r.rows * r.cols);
            assert(r.buffer@ == png_data(rgb, r.rows as int, r.cols as int));
        }
        r
    }

    /// Decodes the stored buffer just far enough to read its dimensions,
    /// as `(rows, cols)`.  For any image built from a grid this returns
    /// exactly the image's own `rows` and `cols`.
    pub fn decode_dims(&self) -> (r: Option<(u32, u32)>)
        ensures
            self.grid_encoded() ==> r == Some((self.rows as u32, self.cols as u32)),
    {
        let r = decode_png_dims(&self.buffer);
        proof {
            if self.grid_encoded() {
                let rgb = choose|rgb: Seq<u8>|
                    {
                        &&& 0 < self.rows <= 0x7fff_ffff
                        &&& 0 < self.cols <= 0x7fff_ffff
                        &&& rgb.len() == 3 * self.rows * self.cols
                        &&& self.buffer@ == #[trigger] png_data(
                            rgb,
                            self.rows as int,
                            self.cols as int,
                        )
                    };
                assert(self.buffer@ == png_data(
                    rgb,
                    (self.rows as u32) as int,
                    (self.cols as u32) as int,
                ));
            }
        }
        r
    }

    /// Relies on `image::io::Reader`: decodes the stored buffer into a
    /// dynamic image for the rendering backend, or `None` when the
    /// buffer does not hold a decodable image.
    #[verifier::external_body]
    pub fn to_image_dynamic_image(&self) -> Option<image::DynamicImage> {
        let reader = match image::io::Reader::new(
            std::io::Cursor::new(self.buffer.as_slice()),
        ).with_guessed_format() {
            Ok(reader) => reader,
            Err(_) => return None,
        };
        reader.decode().ok()
    }

    /// Relies on `image::DynamicImage::write_to` with the PNG format:
    /// re-encodes a decoded image into a fresh model value, or `None`
    /// when encoding fails.
    #[verifier::external_body]
    pub fn from_dynamic_image(value: image::DynamicImage) -> (r: Option<Image>)
        ensures
            match r {
                Some(img) => img.format == ImageFormat::Png && img.title@ == Seq::<char>::empty()
                    && img.style == (ImageStyle { draw_axes: false }),
                None => true,
            },
    {
        let mut buffer: Vec<u8> = Vec::new();
        if value.write_to(&mut std::io::Cursor::new(&mut buffer), image::ImageFormat::Png).is_err()
        {
            return None;
        }
        Some(Image {
            title: String::new(),
            buffer,
            format: ImageFormat::Png,
            rows: value.height() as usize,
            cols: value.width() as usize,
            style: ImageStyle { draw_axes: false },
        })
    }
}

} // verus!
