use ledboard::matrix::{Matrix, MatrixError, MATRIX_AREA, MATRIX_HEIGHT, MATRIX_WIDTH};

fn set_cells(buf: &mut Vec<u8>, cells: &[(usize, usize, u8)]) {
    for &(row, col, v) in cells {
        buf[row * MATRIX_WIDTH + col] = v;
    }
}

#[test]
fn from_buffer_round_trip_reads_back() {
    let mut buf = vec![0u8; MATRIX_AREA];
    for i in 0..MATRIX_AREA {
        buf[i] = (i % 251) as u8;
    }
    let m = Matrix::from_buffer(buf.clone()).unwrap();
    for row in 0..MATRIX_HEIGHT {
        for col in 0..MATRIX_WIDTH {
            assert_eq!(m.get_el(row, col), buf[row * MATRIX_WIDTH + col]);
        }
    }
}

#[test]
fn from_buffer_rejects_wrong_length() {
    assert_eq!(
        Matrix::from_buffer(vec![0u8; MATRIX_AREA - 1]).unwrap_err(),
        MatrixError::DimensionMismatch
    );
    assert_eq!(
        Matrix::from_buffer(vec![0u8; MATRIX_AREA + 1]).unwrap_err(),
        MatrixError::DimensionMismatch
    );
    assert_eq!(
        Matrix::from_buffer(Vec::new()).unwrap_err(),
        MatrixError::DimensionMismatch
    );
}

#[test]
fn shift_by_zero_is_identity() {
    let mut buf = vec![0u8; MATRIX_AREA];
    set_cells(&mut buf, &[(0, 0, 7), (5, 3, 1), (33, 8, 9)]);
    let m = Matrix::from_buffer(buf).unwrap();
    let shifted = m.shift_matrix(0, 0);
    assert_eq!(shifted, m);
}

#[test]
fn shift_translates_and_clips() {
    let mut buf = vec![0u8; MATRIX_AREA];
    set_cells(&mut buf, &[(0, 0, 5), (33, 8, 9)]);
    let m = Matrix::from_buffer(buf).unwrap();
    let shifted = m.shift_matrix(2, 3);
    // the top-left cell lands at (3, 2); the bottom-right one is clipped
    assert_eq!(shifted.get_el(3, 2), 5);
    for row in 0..MATRIX_HEIGHT {
        for col in 0..MATRIX_WIDTH {
            if (row, col) != (3, 2) {
                assert_eq!(shifted.get_el(row, col), 0);
            }
        }
    }
}

#[test]
fn join_is_nonzero_exactly_where_either_operand_is() {
    let mut a_buf = vec![0u8; MATRIX_AREA];
    set_cells(&mut a_buf, &[(0, 0, 1), (2, 2, 3)]);
    let mut b_buf = vec![0u8; MATRIX_AREA];
    set_cells(&mut b_buf, &[(1, 1, 2), (4, 4, 4)]);
    let a = Matrix::from_buffer(a_buf.clone()).unwrap();
    let b = Matrix::from_buffer(b_buf.clone()).unwrap();
    let mut joined = Matrix::from_buffer(a_buf.clone()).unwrap();
    joined.join_matrix(&b);
    for row in 0..MATRIX_HEIGHT {
        for col in 0..MATRIX_WIDTH {
            let expect_nonzero = a.get_el(row, col) != 0 || b.get_el(row, col) != 0;
            assert_eq!(joined.get_el(row, col) != 0, expect_nonzero);
        }
    }
}

#[test]
fn join_of_disjoint_footprints_commutes() {
    let mut a_buf = vec![0u8; MATRIX_AREA];
    set_cells(&mut a_buf, &[(0, 0, 1), (2, 2, 3)]);
    let mut b_buf = vec![0u8; MATRIX_AREA];
    set_cells(&mut b_buf, &[(1, 1, 2), (4, 4, 4)]);
    let a = Matrix::from_buffer(a_buf.clone()).unwrap();
    let b = Matrix::from_buffer(b_buf.clone()).unwrap();
    let mut ab = Matrix::from_buffer(a_buf).unwrap();
    ab.join_matrix(&b);
    let mut ba = Matrix::from_buffer(b_buf).unwrap();
    ba.join_matrix(&a);
    assert_eq!(ab, ba);
}

#[test]
fn from_picture_places_subimage_at_origin() {
    let picture = vec![1u8, 2, 3, 4, 5, 6];
    let m = Matrix::from_picture(picture, 3, 2).unwrap();
    assert_eq!(m.get_el(0, 0), 1);
    assert_eq!(m.get_el(0, 1), 2);
    assert_eq!(m.get_el(0, 2), 3);
    assert_eq!(m.get_el(1, 0), 4);
    assert_eq!(m.get_el(1, 1), 5);
    assert_eq!(m.get_el(1, 2), 6);
    for row in 0..MATRIX_HEIGHT {
        for col in 0..MATRIX_WIDTH {
            if row >= 2 || col >= 3 {
                assert_eq!(m.get_el(row, col), 0);
            }
        }
    }
}

#[test]
fn from_picture_rejects_wrong_length() {
    assert_eq!(
        Matrix::from_picture(vec![1u8, 2, 3], 2, 2).unwrap_err(),
        MatrixError::DimensionMismatch
    );
    assert_eq!(
        Matrix::from_picture(vec![1u8], 0, 0).unwrap_err(),
        MatrixError::DimensionMismatch
    );
}

#[test]
fn get_col_extracts_one_column() {
    let mut buf = vec![0u8; MATRIX_AREA];
    for row in 0..MATRIX_HEIGHT {
        buf[row * MATRIX_WIDTH + 4] = (row + 1) as u8;
    }
    let m = Matrix::from_buffer(buf).unwrap();
    let col = m.get_col(4);
    assert_eq!(col.len(), MATRIX_HEIGHT);
    for row in 0..MATRIX_HEIGHT {
        assert_eq!(col[row], (row + 1) as u8);
    }
    let empty_col = m.get_col(0);
    assert!(empty_col.iter().all(|&v| v == 0));
}

#[test]
fn default_grid_is_all_zero() {
    let m = Matrix::default();
    for row in 0..MATRIX_HEIGHT {
        for col in 0..MATRIX_WIDTH {
            assert_eq!(m.get_el(row, col), 0);
        }
    }
}
