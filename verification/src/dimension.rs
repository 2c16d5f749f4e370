//! The grid size, fixed at startup, and the buffer lengths it induces.

use vstd::prelude::*;

verus! {

/// Size of the LED grid in cells. Chosen once at startup; every buffer length
/// in the pipeline is derived from it.
#[derive(Clone, Copy, Debug, PartialEq, Eq, Structural)]
pub struct Dimension {
    pub width: usize,
    pub height: usize,
}

impl Dimension {
    /// A usable grid: both sides positive, and even the largest derived
    /// buffer (4 bytes per cell) fits in a `usize`.
    pub open spec fn wf(self) -> bool {
        &&& 0 < self.width
        &&& 0 < self.height
        &&& self.width * self.height * 4 <= usize::MAX
    }

    /// Number of grid cells.
    pub open spec fn cells(self) -> int {
        self.width * self.height
    }

    /// Exact byte length of one raw frame: 3 bytes (red, green, blue) per cell.
    pub open spec fn frame_len(self) -> int {
        self.width * self.height * 3
    }

    /// Byte length of the RGBA presentation buffer: 4 bytes per cell.
    pub open spec fn buffer_len(self) -> int {
        self.width * self.height * 4
    }

    /// Accepts exactly the usable dimensions and rejects every other pair.
    pub fn new(width: usize, height: usize) -> (d: Option<Dimension>)
        ensures
            match d {
                Some(dim) => dim == (Dimension { width, height }) && dim.wf(),
                None => !(Dimension { width, height }).wf(),
            },
    {
        if width == 0 || height == 0 {
            return None;
        }
        match width.checked_mul(height) {
            Some(cell_count) => match cell_count.checked_mul(4) {
                Some(_) => Some(Dimension { width, height }),
                None => None,
            },
            None => {
                proof {
                    assert(width * height * 4 > usize::MAX) by (nonlinear_arith)
                        requires
                            width * height > usize::MAX,
                            width > 0,
                            height > 0,
                    ;
                }
                None
            },
        }
    }

    /// The number of cells as a machine integer.
    pub fn cell_count(&self) -> (n: usize)
        requires
            self.wf(),
        ensures
            n == self.cells(),
    {
        self.width * self.height
    }

    /// The exact raw-frame length as a machine integer.
    pub fn frame_size(&self) -> (n: usize)
        requires
            self.wf(),
        ensures
            n == self.frame_len(),
    {
        self.width * self.height * 3
    }

    /// The RGBA buffer length as a machine integer.
    pub fn buffer_size(&self) -> (n: usize)
        requires
            self.wf(),
        ensures
            n == self.buffer_len(),
    {
        self.width * self.height * 4
    }
}

} // verus!
