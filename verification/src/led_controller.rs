//! Byte framing of the serial wire protocol: each column of a finished
//! grid travels as one fixed-size command, and a terminating flush command
//! follows after all columns. Writing the frames to the port is the
//! surrounding application's business.

use vstd::prelude::*;

use crate::matrix::{MATRIX_HEIGHT, MATRIX_WIDTH};

verus! {

/// Frames one column as a wire command: a header naming the draw-column
/// operation and the column index, followed by the column's raw intensity
/// bytes.
pub fn encode_column_command(column: &Vec<u8>, col_index: usize) -> (r: Vec<u8>)
    requires
        column@.len() == MATRIX_HEIGHT,
        col_index < MATRIX_WIDTH,
    ensures
        r@.len() == 4 + MATRIX_HEIGHT,
        r@[0] == 0x32u8,
        r@[1] == 0xacu8,
        r@[2] == 0x07u8,
        r@[3] == col_index as u8,
        forall|i: int| 0 <= i < MATRIX_HEIGHT ==> r@[4 + i] == column@[i],
{
    let mut out: Vec<u8> = Vec::new();
    out.push(0x32);
    out.push(0xac);
    out.push(0x07);
    out.push(col_index as u8);
    let mut i: usize = 0;
    while i < MATRIX_HEIGHT
        invariant
            column@.len() == MATRIX_HEIGHT,
            col_index < MATRIX_WIDTH,
            i <= MATRIX_HEIGHT,
            out@.len() == 4 + i,
            out@[0] == 0x32u8,
            out@[1] == 0xacu8,
            out@[2] == 0x07u8,
            out@[3] == col_index as u8,
            forall|k: int| 0 <= k < i ==> out@[4 + k] == column@[k],
        decreases MATRIX_HEIGHT - i,
    {
        out.push(column[i]);
        i = i + 1;
    }
    out
}

/// Frames the flush command that ends one transmitted frame.
pub fn encode_flush_command() -> (r: Vec<u8>)
    ensures
        r@.len() == 3,
        r@[0] == 0x32u8,
        r@[1] == 0xacu8,
        r@[2] == 0x08u8,
{
    let mut out: Vec<u8> = Vec::new();
    out.push(0x32);
    out.push(0xac);
    out.push(0x08);
    out
}

} // verus!
