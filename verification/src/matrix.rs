//! Fixed-size pixel grid: the intensity buffer that one rendered frame or
//! fragment lives in.
//!
//! A grid always covers the whole physical display. Fragments rendered by a
//! plugin are first expanded onto a full grid (`from_picture`), translated to
//! the plugin's screen position (`shift_matrix`), and merged into the frame
//! being composed (`join_matrix`).

use vstd::prelude::*;

verus! {

/// Number of columns of the physical display.
pub const MATRIX_WIDTH: usize = 9;

/// Number of rows of the physical display.
pub const MATRIX_HEIGHT: usize = 34;

/// Total number of cells of the display, row-major.
pub const MATRIX_AREA: usize = MATRIX_WIDTH * MATRIX_HEIGHT;

/// Error of grid constructors that take a raw byte buffer.
#[derive(Debug, Clone, Copy, PartialEq, Eq, Structural)]
pub enum MatrixError {
    /// The buffer length does not agree with the claimed dimensions.
    DimensionMismatch,
}

/// A dense row-major store of intensity values, one byte per cell.
#[derive(Debug)]
pub struct Matrix {
    buffer: Vec<u8>,
}

impl View for Matrix {
    type V = Seq<u8>;

    closed spec fn view(&self) -> Seq<u8> {
        self.buffer@
    }
}

/// Flat row-major index of the cell in row `row` and column `col`.
pub open spec fn cell_at(row: int, col: int) -> int {
    row * (MATRIX_WIDTH as int) + col
}

/// Contents of the all-zero grid.
pub open spec fn zero_grid() -> Seq<u8> {
    Seq::new(MATRIX_AREA as nat, |i: int| 0u8)
}

/// Contents of the grid `s` translated by `dx` columns and `dy` rows: the
/// cell in row `row` and column `col` takes the value of the source cell at
/// `(row - dy, col - dx)` when that cell exists, and 0 otherwise. Content
/// pushed past the edge is dropped, never wrapped.
pub open spec fn spec_shift(s: Seq<u8>, dx: int, dy: int) -> Seq<u8> {
    Seq::new(
        s.len(),
        |i: int|
            {
                let row = i / (MATRIX_WIDTH as int);
                let col = i % (MATRIX_WIDTH as int);
                if dy <= row && dx <= col {
                    s[cell_at(row - dy, col - dx)]
                } else {
                    0u8
                }
            },
    )
}

/// Contents of the union of `a` and `b`: where `b` holds a nonzero value it
/// wins, elsewhere the cell keeps the value it has in `a`.
pub open spec fn spec_join(a: Seq<u8>, b: Seq<u8>) -> Seq<u8> {
    Seq::new(a.len(), |i: int| if b[i] != 0 { b[i] } else { a[i] })
}

/// Contents of a full grid holding the `width` by `height` row-major
/// sub-image `p` at the origin; cells outside the sub-image are 0.
pub open spec fn spec_from_picture(p: Seq<u8>, width: int, height: int) -> Seq<u8> {
    Seq::new(
        MATRIX_AREA as nat,
        |i: int|
            {
                let row = i / (MATRIX_WIDTH as int);
                let col = i % (MATRIX_WIDTH as int);
                if row < height && col < width {
                    p[row * width + col]
                } else {
                    0u8
                }
            },
    )
}

/// Two grids claim disjoint footprints when no cell is nonzero in both.
pub open spec fn footprints_disjoint(a: Seq<u8>, b: Seq<u8>) -> bool {
    forall|i: int| 0 <= i < a.len() ==> !(a[i] != 0 && b[i] != 0)
}

impl Matrix {
    /// Every grid holds exactly one intensity value per cell of the display.
    pub open spec fn wf(&self) -> bool {
        self@.len() == MATRIX_AREA
    }

    /// Reads one cell; the position must lie inside the grid.
    pub fn get_el(&self, row: usize, col: usize) -> (r: u8)
        requires
            self.wf(),
            row < MATRIX_HEIGHT,
            col < MATRIX_WIDTH,
        ensures
            r == self@[cell_at(row as int, col as int)],
    {
        self.buffer[row * MATRIX_WIDTH + col]
    }

    /// Builds a grid from a flat row-major buffer covering the whole
    /// display; any other buffer length is a dimension mismatch.
    pub fn from_buffer(buffer: Vec<u8>) -> (r: Result<Matrix, MatrixError>)
        ensures
            buffer@.len() == MATRIX_AREA ==> (r matches Ok(m) && m.wf() && m@ == buffer@),
            buffer@.len() != MATRIX_AREA ==> r == Err::<Matrix, MatrixError>(
                MatrixError::DimensionMismatch,
            ),
    {
        if buffer.len() == MATRIX_AREA {
            Ok(Matrix { buffer })
        } else {
            Err(MatrixError::DimensionMismatch)
        }
    }

    /// Returns the grid translated right by `offset_x` columns and down by
    /// `offset_y` rows, dropping content pushed past the edge.
    pub fn shift_matrix(&self, offset_x: usize, offset_y: usize) -> (r: Matrix)
        requires
            self.wf(),
        ensures
            r.wf(),
            r@ == spec_shift(self@, offset_x as int, offset_y as int),
    {
        let mut out: Vec<u8> = Vec::new();
        let mut i: usize = 0;
        while i < MATRIX_AREA
            invariant
                self.wf(),
                i <= MATRIX_AREA,
                out@.len() == i,
                forall|k: int|
                    0 <= k < i ==> out@[k] == spec_shift(
                        self@,
                        offset_x as int,
                        offset_y as int,
                    )[k],
            decreases MATRIX_AREA - i,
        {
            let row = i / MATRIX_WIDTH;
            let col = i % MATRIX_WIDTH;
            let v = if offset_y <= row && offset_x <= col {
                self.buffer[(row - offset_y) * MATRIX_WIDTH + (col - offset_x)]
            } else {
                0u8
            };
            out.push(v);
            i = i + 1;
        }
        proof {
            assert(out@ =~= spec_shift(self@, offset_x as int, offset_y as int));
        }
        Matrix { buffer: out }
    }

    /// Absorbs `other` into `self`: cells where `other` is nonzero take the
    /// value of `other`, all remaining cells are kept.
    pub fn join_matrix(&mut self, other: &Matrix)
        requires
            old(self).wf(),
            other.wf(),
        ensures
            final(self).wf(),
            final(self)@ == spec_join(old(self)@, other@),
    {
        let ghost orig = self@;
        let mut i: usize = 0;
        while i < MATRIX_AREA
            invariant
                self@.len() == MATRIX_AREA,
                orig.len() == MATRIX_AREA,
                other.wf(),
                i <= MATRIX_AREA,
                forall|k: int| 0 <= k < i ==> self@[k] == spec_join(orig, other@)[k],
                forall|k: int| i <= k < MATRIX_AREA ==> self@[k] == orig[k],
            decreases MATRIX_AREA - i,
        {
            let v = other.buffer[i];
            if v != 0 {
                self.buffer[i] = v;
            }
            i = i + 1;
        }
        proof {
            assert(self@ =~= spec_join(orig, other@));
        }
    }

    /// Extracts one column, top to bottom.
    pub fn get_col(&self, index: usize) -> (r: Vec<u8>)
        requires
            self.wf(),
            index < MATRIX_WIDTH,
        ensures
            r@.len() == MATRIX_HEIGHT,
            forall|row: int|
                0 <= row < MATRIX_HEIGHT ==> r@[row] == self@[cell_at(row, index as int)],
    {
        let mut out: Vec<u8> = Vec::new();
        let mut row: usize = 0;
        while row < MATRIX_HEIGHT
            invariant
                self.wf(),
                index < MATRIX_WIDTH,
                row <= MATRIX_HEIGHT,
                out@.len() == row,
                forall|k: int| 0 <= k < row ==> out@[k] == self@[cell_at(k, index as int)],
            decreases MATRIX_HEIGHT - row,
        {
            out.push(self.buffer[row * MATRIX_WIDTH + index]);
            row = row + 1;
        }
        out
    }

    /// Interprets `picture` as a `width` by `height` row-major sub-image and
    /// places it at the origin of a full grid; cells outside the sub-image
    /// are 0, and content past the display edge is dropped. The buffer
    /// length must equal `width * height`, else a dimension mismatch.
    pub fn from_picture(picture: Vec<u8>, width: usize, height: usize) -> (r: Result<
        Matrix,
        MatrixError,
    >)
        ensures
            picture@.len() == width * height ==> (r matches Ok(m) && m.wf() && m@
                == spec_from_picture(picture@, width as int, height as int)),
            picture@.len() != width * height ==> r == Err::<Matrix, MatrixError>(
                MatrixError::DimensionMismatch,
            ),
    {
        let area = match width.checked_mul(height) {
            Some(a) => a,
            None => {
                proof {
                    vstd::std_specs::vec::axiom_spec_len(&picture);
                }
                return Err(MatrixError::DimensionMismatch);
            },
        };
        if picture.len() != area {
            return Err(MatrixError::DimensionMismatch);
        }
        let mut out: Vec<u8> = Vec::new();
        let mut i: usize = 0;
        while i < MATRIX_AREA
            invariant
                picture@.len() == width * height,
                i <= MATRIX_AREA,
                out@.len() == i,
                forall|k: int|
                    0 <= k < i ==> out@[k] == spec_from_picture(
                        picture@,
                        width as int,
                        height as int,
                    )[k],
            decreases MATRIX_AREA - i,
        {
            let row = i / MATRIX_WIDTH;
            let col = i % MATRIX_WIDTH;
            let v = if row < height && col < width {
                proof {
                    vstd::std_specs::vec::axiom_spec_len(&picture);
                    assert((row as int) * (width as int) + (col as int) < (width as int) * (
                    height as int)) by (nonlinear_arith)
                        requires
                            (row as int) < (height as int),
                            (col as int) < (width as int),
                            (width as int) >= 0,
                    ;
                }
                picture[row * width + col]
            } else {
                0u8
            };
            out.push(v);
            i = i + 1;
        }
        proof {
            assert(out@ =~= spec_from_picture(picture@, width as int, height as int));
        }
        Ok(Matrix { buffer: out })
    }
}

impl Default for Matrix {
    /// The all-zero grid: the neutral element of frame composition.
    fn default() -> (r: Matrix)
        ensures
            r.wf(),
            r@ == zero_grid(),
    {
        let out: Vec<u8> = vec![0u8; MATRIX_AREA];
        let r = Matrix { buffer: out };
        proof {
            assert(r@ =~= zero_grid());
        }
        r
    }
}

impl PartialEq for Matrix {
    /// Two grids are equal when every cell agrees.
    fn eq(&self, other: &Matrix) -> (r: bool) {
        let r = self.buffer == other.buffer;
        proof {
            if self.buffer@.len() == other.buffer@.len() && (forall|i: int|
                0 <= i < self.buffer@.len() ==> self.buffer@[i] == other.buffer@[i]) {
                assert(self.buffer@ =~= other.buffer@);
            }
        }
        r
    }
}

impl Eq for Matrix {

}

impl vstd::std_specs::cmp::PartialEqSpecImpl for Matrix {
    open spec fn obeys_eq_spec() -> bool {
        true
    }

    open spec fn eq_spec(&self, other: &Matrix) -> bool {
        self@ == other@
    }
}

/// Law: translating a grid by a zero offset leaves every cell unchanged.
pub proof fn lemma_shift_zero_identity(g: Seq<u8>)
    ensures
        spec_shift(g, 0, 0) == g,
{
    assert forall|i: int| 0 <= i < g.len() implies spec_shift(g, 0, 0)[i] == g[i] by {
        vstd::arithmetic::div_mod::lemma_fundamental_div_mod(i, MATRIX_WIDTH as int);
    }
    assert(spec_shift(g, 0, 0) =~= g);
}

/// Law: a cell of the union is nonzero exactly where a cell of either
/// operand is nonzero.
pub proof fn lemma_join_nonzero_cells(a: Seq<u8>, b: Seq<u8>)
    requires
        a.len() == b.len(),
    ensures
        forall|i: int|
            0 <= i < a.len() ==> (spec_join(a, b)[i] != 0 <==> (a[i] != 0 || b[i] != 0)),
{
}

/// Law: the union is commutative when the operands claim disjoint
/// footprints.
pub proof fn lemma_join_disjoint_commutes(a: Seq<u8>, b: Seq<u8>)
    requires
        a.len() == b.len(),
        footprints_disjoint(a, b),
    ensures
        spec_join(a, b) == spec_join(b, a),
{
    assert(spec_join(a, b) =~= spec_join(b, a));
}

/// Law: a grid built from a flat buffer reproduces that buffer cell by
/// cell, so reading every cell back (as `get_el` does) yields the original
/// values exactly.
pub proof fn lemma_from_buffer_round_trip(m: Matrix, buffer: Seq<u8>)
    requires
        buffer.len() == MATRIX_AREA,
        m@ == buffer,
    ensures
        forall|row: int, col: int|
            0 <= row < MATRIX_HEIGHT && 0 <= col < MATRIX_WIDTH ==> m@[cell_at(row, col)]
                == buffer[cell_at(row, col)],
{
}

} // verus!
