//! The RGBA presentation buffer.
//!
//! One quadruple per grid cell, row-major, the alpha byte always fully
//! opaque. The buffer starts all black and is only ever overwritten whole,
//! from a complete [`ColorGrid`]; presenting it on a screen is I/O and is
//! left to the surrounding program, which reads the buffer out through
//! [`DisplaySurface::buffer`].

use crate::decoder::ColorGrid;
use crate::decoder::Rgb;
use crate::dimension::Dimension;
use vstd::arithmetic::div_mod::lemma_fundamental_div_mod_converse;
use vstd::prelude::*;

verus! {

/// The fixed alpha byte: every cell is always fully opaque.
pub const ALPHA_OPAQUE: u8 = 255;

/// The RGBA buffer a grid renders to: byte `4*i .. 4*i + 3` of the buffer
/// carry cell `i`'s red, green and blue channels and the opaque alpha byte.
pub open spec fn rendered_of(dim: Dimension, grid: Seq<Rgb>) -> Seq<u8> {
    Seq::new(
        dim.buffer_len() as nat,
        |j: int|
            if j % 4 == 0 {
                grid[j / 4].0
            } else if j % 4 == 1 {
                grid[j / 4].1
            } else if j % 4 == 2 {
                grid[j / 4].2
            } else {
                ALPHA_OPAQUE
            },
    )
}

/// The all-black grid the surface starts from.
pub open spec fn black_grid(dim: Dimension) -> Seq<Rgb> {
    Seq::new(dim.cells() as nat, |i: int| (0u8, 0u8, 0u8))
}

/// The four bytes of one rendered cell, spelled out.
pub proof fn lemma_rendered_of_cell(dim: Dimension, grid: Seq<Rgb>, i: int)
    requires
        dim.wf(),
        0 <= i < dim.cells(),
    ensures
        rendered_of(dim, grid)[4 * i] == grid[i].0,
        rendered_of(dim, grid)[4 * i + 1] == grid[i].1,
        rendered_of(dim, grid)[4 * i + 2] == grid[i].2,
        rendered_of(dim, grid)[4 * i + 3] == ALPHA_OPAQUE,
{
    assert(4 * i + 3 < dim.buffer_len() && 0 <= 4 * i) by (nonlinear_arith)
        requires
            0 <= i < dim.cells(),
            dim.cells() == dim.width * dim.height,
            dim.buffer_len() == dim.width * dim.height * 4,
    ;
    lemma_fundamental_div_mod_converse(4 * i, 4, i, 0);
    lemma_fundamental_div_mod_converse(4 * i + 1, 4, i, 1);
    lemma_fundamental_div_mod_converse(4 * i + 2, 4, i, 2);
    lemma_fundamental_div_mod_converse(4 * i + 3, 4, i, 3);
}

/// The initial buffer: before any datagram arrives, every cell is black
/// and already fully opaque.
pub proof fn lemma_initial_black(dim: Dimension, i: int)
    requires
        dim.wf(),
        0 <= i < dim.cells(),
    ensures
        rendered_of(dim, black_grid(dim))[4 * i] == 0,
        rendered_of(dim, black_grid(dim))[4 * i + 1] == 0,
        rendered_of(dim, black_grid(dim))[4 * i + 2] == 0,
        rendered_of(dim, black_grid(dim))[4 * i + 3] == ALPHA_OPAQUE,
{
    lemma_rendered_of_cell(dim, black_grid(dim), i);
}

/// Applying a grid determines the whole buffer: two buffers rendered from
/// the same grid are identical, so applying the same grid twice in
/// succession leaves the same bytes as applying it once.
pub proof fn lemma_apply_idempotent(dim: Dimension, grid: Seq<Rgb>, first: Seq<u8>, second: Seq<u8>)
    requires
        first == rendered_of(dim, grid),
        second == rendered_of(dim, grid),
    ensures
        first == second,
{
}

/// Alpha invariance: whatever the grid's colors, every cell of the rendered
/// buffer carries the fixed opaque alpha byte.
pub proof fn lemma_alpha_invariant(dim: Dimension, grid: Seq<Rgb>, i: int)
    requires
        dim.wf(),
        0 <= i < dim.cells(),
    ensures
        rendered_of(dim, grid)[4 * i + 3] == ALPHA_OPAQUE,
{
    lemma_rendered_of_cell(dim, grid, i);
}

/// The presentation target: the grid size and the RGBA bytes for it.
pub struct DisplaySurface {
    dim: Dimension,
    buffer: Vec<u8>,
}

impl View for DisplaySurface {
    type V = Seq<u8>;

    closed spec fn view(&self) -> Seq<u8> {
        self.buffer@
    }
}

impl DisplaySurface {
    /// The dimension this surface was created for.
    pub closed spec fn spec_dim(self) -> Dimension {
        self.dim
    }

    /// A usable surface: 4 buffer bytes per cell of a usable dimension.
    pub open spec fn wf(self) -> bool {
        self.spec_dim().wf() && self@.len() == self.spec_dim().buffer_len()
    }

    /// The dimension as a value.
    pub fn dim(&self) -> (d: Dimension)
        ensures
            d == self.spec_dim(),
    {
        self.dim
    }

    /// Read access to the RGBA bytes, for presentation.
    pub fn buffer(&self) -> (b: &Vec<u8>)
        ensures
            b@ == self@,
    {
        &self.buffer
    }

    /// A fresh surface: all cells black, fully opaque, ready to be presented
    /// before any network input is accepted.
    pub fn new(dim: Dimension) -> (s: DisplaySurface)
        requires
            dim.wf(),
        ensures
            s.wf(),
            s.spec_dim() == dim,
            s@ == rendered_of(dim, black_grid(dim)),
    {
        let cell_count = dim.cell_count();
        let mut buffer: Vec<u8> = Vec::new();
        let mut i: usize = 0;
        while i < cell_count
            invariant
                dim.wf(),
                i <= cell_count,
                cell_count == dim.cells(),
                buffer@.len() == 4 * i,
                forall|j: int| 0 <= j < 4 * i ==> buffer@[j] == rendered_of(
                    dim,
                    black_grid(dim),
                )[j],
            decreases cell_count - i,
        {
            proof {
                lemma_rendered_of_cell(dim, black_grid(dim), i as int);
            }
            buffer.push(0);
            buffer.push(0);
            buffer.push(0);
            buffer.push(ALPHA_OPAQUE);
            i = i + 1;
        }
        proof {
            assert(buffer@ =~= rendered_of(dim, black_grid(dim)));
        }
        DisplaySurface { dim, buffer }
    }

    /// Overwrites the four bytes of the cell at `(row, col)` with the given
    /// color and the opaque alpha byte; every other byte stays.
    pub fn write_color(&mut self, row: usize, col: usize, color: Rgb)
        requires
            old(self).wf(),
            row < old(self).spec_dim().height,
            col < old(self).spec_dim().width,
        ensures
            final(self).wf(),
            final(self).spec_dim() == old(self).spec_dim(),
            ({
                let i = row * old(self).spec_dim().width + col;
                final(self)@ == old(self)@.update(4 * i, color.0).update(
                    4 * i + 1,
                    color.1,
                ).update(4 * i + 2, color.2).update(4 * i + 3, ALPHA_OPAQUE)
            }),
    {
        proof {
            crate::decoder::lemma_row_major_index_in_range(
                self.spec_dim(),
                row as int,
                col as int,
            );
            assert(4 * (row * self.spec_dim().width + col) + 3 < self.spec_dim().buffer_len())
                by (nonlinear_arith)
                requires
                    0 <= row * self.spec_dim().width + col < self.spec_dim().cells(),
                    self.spec_dim().cells() == self.spec_dim().width * self.spec_dim().height,
                    self.spec_dim().buffer_len() == self.spec_dim().width * self.spec_dim().height
                        * 4,
            ;
        }
        let i = row * self.dim.width + col;
        let base = 4 * i;
        self.buffer.set(base, color.0);
        self.buffer.set(base + 1, color.1);
        self.buffer.set(base + 2, color.2);
        self.buffer.set(base + 3, ALPHA_OPAQUE);
    }

    /// Overwrites the whole buffer from a complete grid: afterwards the
    /// bytes are exactly the grid's rendering — colors from the grid, alpha
    /// forced opaque, no cell skipped.
    pub fn apply(&mut self, grid: &ColorGrid)
        requires
            old(self).wf(),
            grid.wf(),
            grid.spec_dim() == old(self).spec_dim(),
        ensures
            final(self).wf(),
            final(self).spec_dim() == old(self).spec_dim(),
            final(self)@ == rendered_of(old(self).spec_dim(), grid@),
    {
        let cell_count = self.dim.cell_count();
        let mut i: usize = 0;
        while i < cell_count
            invariant
                self.wf(),
                grid.wf(),
                grid.spec_dim() == self.spec_dim(),
                self.spec_dim() == old(self).spec_dim(),
                i <= cell_count,
                cell_count == self.spec_dim().cells(),
                forall|j: int| 0 <= j < 4 * i ==> self@[j] == rendered_of(
                    old(self).spec_dim(),
                    grid@,
                )[j],
            decreases cell_count - i,
        {
            proof {
                lemma_rendered_of_cell(self.spec_dim(), grid@, i as int);
                assert(4 * i + 3 < self.spec_dim().buffer_len()) by (nonlinear_arith)
                    requires
                        0 <= i < self.spec_dim().cells(),
                        self.spec_dim().cells() == self.spec_dim().width * self.spec_dim().height,
                        self.spec_dim().buffer_len() == self.spec_dim().width
                            * self.spec_dim().height * 4,
                ;
            }
            let color = grid.cell_at(i);
            let base = 4 * i;
            self.buffer.set(base, color.0);
            self.buffer.set(base + 1, color.1);
            self.buffer.set(base + 2, color.2);
            self.buffer.set(base + 3, ALPHA_OPAQUE);
            i = i + 1;
        }
        proof {
            assert(self@ =~= rendered_of(old(self).spec_dim(), grid@));
        }
    }
}

} // verus!
