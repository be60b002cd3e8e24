use ledboard::led_controller::{encode_column_command, encode_flush_command};
use ledboard::matrix::MATRIX_HEIGHT;

#[test]
fn column_command_frames_header_index_and_payload() {
    let mut column = vec![0u8; MATRIX_HEIGHT];
    for (i, cell) in column.iter_mut().enumerate() {
        *cell = (i + 1) as u8;
    }
    let command = encode_column_command(&column, 3);
    assert_eq!(command.len(), 38);
    assert_eq!(&command[0..4], &[0x32, 0xac, 0x07, 3]);
    assert_eq!(&command[4..], column.as_slice());
}

#[test]
fn flush_command_is_fixed() {
    assert_eq!(encode_flush_command(), vec![0x32, 0xac, 0x08]);
}
