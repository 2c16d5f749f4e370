//! Decoding a raw datagram into a grid of color triples.
//!
//! The wire format is bare: exactly `width * height * 3` bytes, one
//! red-green-blue triple per cell, row-major. A payload of any other length
//! is rejected whole; a rejected payload must leave the caller's display
//! state untouched, so rejection carries no partial result.

use crate::dimension::Dimension;
use vstd::prelude::*;

verus! {

/// One cell's color: red, green and blue channels.
pub type Rgb = (u8, u8, u8);

/// Why a raw payload was rejected.
#[derive(Clone, Copy, Debug, PartialEq, Eq, Structural)]
pub enum DecodeError {
    /// The payload length is not exactly `width * height * 3`.
    SizeMismatch { expected: usize, actual: usize },
}

/// The grid a valid raw frame denotes: cell `i` (row-major) takes bytes
/// `3*i`, `3*i + 1`, `3*i + 2` as its red, green and blue channels.
pub open spec fn grid_of(dim: Dimension, raw: Seq<u8>) -> Seq<Rgb> {
    Seq::new(dim.cells() as nat, |i: int| (raw[3 * i], raw[3 * i + 1], raw[3 * i + 2]))
}

/// A decoded frame: one color triple per grid cell, row-major, always the
/// full grid — a `ColorGrid` is only ever built whole.
#[derive(Debug)]
pub struct ColorGrid {
    dim: Dimension,
    cells: Vec<Rgb>,
}

impl View for ColorGrid {
    type V = Seq<Rgb>;

    closed spec fn view(&self) -> Seq<Rgb> {
        self.cells@
    }
}

impl ColorGrid {
    /// The dimension this grid was decoded for.
    pub closed spec fn spec_dim(self) -> Dimension {
        self.dim
    }

    /// A whole grid: one triple per cell of a usable dimension.
    pub open spec fn wf(self) -> bool {
        self.spec_dim().wf() && self@.len() == self.spec_dim().cells()
    }

    /// The dimension as a value.
    pub fn dim(&self) -> (d: Dimension)
        ensures
            d == self.spec_dim(),
    {
        self.dim
    }

    /// The color of the cell at row-major index `i`.
    pub fn cell_at(&self, i: usize) -> (c: Rgb)
        requires
            self.wf(),
            i < self.spec_dim().cells(),
        ensures
            c == self@[i as int],
    {
        self.cells[i]
    }

    /// The color of the cell at `(row, col)`: row-major index `row * width + col`.
    pub fn cell(&self, row: usize, col: usize) -> (c: Rgb)
        requires
            self.wf(),
            row < self.spec_dim().height,
            col < self.spec_dim().width,
        ensures
            c == self@[row * self.spec_dim().width + col],
    {
        proof {
            lemma_row_major_index_in_range(
                self.spec_dim(),
                row as int,
                col as int,
            );
        }
        let i = row * self.dim.width + col;
        self.cells[i]
    }
}

/// A row-major index lies inside the grid.
pub proof fn lemma_row_major_index_in_range(dim: Dimension, row: int, col: int)
    requires
        0 <= row < dim.height,
        0 <= col < dim.width,
    ensures
        0 <= row * dim.width + col < dim.cells(),
{
    assert(0 <= row * dim.width + col < dim.width * dim.height) by (nonlinear_arith)
        requires
            0 <= row < dim.height,
            0 <= col < dim.width,
    ;
}

/// Converts one raw payload into a grid of color triples.
///
/// Succeeds exactly on payloads of length `width * height * 3`; any other
/// length is rejected with the expected and the actual length, and nothing
/// else happens — the function is pure and total.
pub fn decode(raw: &[u8], dim: Dimension) -> (r: Result<ColorGrid, DecodeError>)
    requires
        dim.wf(),
    ensures
        match r {
            Ok(grid) => {
                &&& raw@.len() == dim.frame_len()
                &&& grid.wf()
                &&& grid.spec_dim() == dim
                &&& grid@ == grid_of(dim, raw@)
            },
            Err(e) => {
                &&& raw@.len() != dim.frame_len()
                &&& e == (DecodeError::SizeMismatch {
                    expected: dim.frame_len() as usize,
                    actual: raw@.len() as usize,
                })
            },
        },
{
    let expected = dim.frame_size();
    if raw.len() != expected {
        return Err(DecodeError::SizeMismatch { expected, actual: raw.len() });
    }
    let cell_count = dim.cell_count();
    let mut cells: Vec<Rgb> = Vec::new();
    let mut i: usize = 0;
    while i < cell_count
        invariant
            dim.wf(),
            i <= cell_count,
            cell_count == dim.cells(),
            raw@.len() == dim.frame_len(),
            cells@.len() == i,
            forall|j: int| 0 <= j < i ==> cells@[j] == grid_of(dim, raw@)[j],
        decreases cell_count - i,
    {
        let base = 3 * i;
        let red = raw[base];
        let green = raw[base + 1];
        let blue = raw[base + 2];
        cells.push((red, green, blue));
        i = i + 1;
    }
    proof {
        assert(cells@ =~= grid_of(dim, raw@));
    }
    Ok(ColorGrid { dim, cells })
}

/// Decode correctness over rows and columns: in the grid a valid payload
/// denotes, the cell at `(row, col)` carries exactly the three bytes starting
/// at `3 * (row * width + col)`.
pub proof fn lemma_decode_cell(dim: Dimension, raw: Seq<u8>, row: int, col: int)
    requires
        dim.wf(),
        raw.len() == dim.frame_len(),
        0 <= row < dim.height,
        0 <= col < dim.width,
    ensures
        grid_of(dim, raw)[row * dim.width + col] == (
            raw[3 * (row * dim.width + col)],
            raw[3 * (row * dim.width + col) + 1],
            raw[3 * (row * dim.width + col) + 2],
        ),
{
    lemma_row_major_index_in_range(dim, row, col);
}

} // verus!
