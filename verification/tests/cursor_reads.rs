//! Tests of the bit cursor: byte reads, bit-length windows, truncation
//! behaviour and unaligned positions.

use tvm_disasm::DecodeError;
use tvm_disasm::cursor::Cursor;

#[test]
fn reads_bytes_in_order() {
    let mut cur = Cursor::from_bytes(vec![0xDE, 0xAD]);
    assert_eq!(cur.remaining_bits(), 16);
    assert_eq!(cur.get_next_byte(), Ok(0xDE));
    assert_eq!(cur.get_next_byte(), Ok(0xAD));
    assert_eq!(cur.remaining_bits(), 0);
}

#[test]
fn failed_read_does_not_move_the_cursor() {
    let mut cur = Cursor::from_bytes(vec![0x7E]);
    assert_eq!(cur.get_next_byte(), Ok(0x7E));
    assert_eq!(cur.get_next_byte(), Err(DecodeError::Truncated));
    assert_eq!(cur.remaining_bits(), 0);
}

#[test]
fn bit_length_window_limits_reads() {
    let mut cur = Cursor::with_bit_len(vec![0xAB, 0xCD], 12);
    assert_eq!(cur.get_next_byte(), Ok(0xAB));
    // Four bits remain: not enough for a byte.
    assert_eq!(cur.get_next_byte(), Err(DecodeError::Truncated));
    assert_eq!(cur.remaining_bits(), 4);
}

#[test]
fn unaligned_byte_read_spans_two_bytes() {
    let mut cur = Cursor::from_bytes(vec![0xAA, 0xCC]);
    cur.skip_bits(4).unwrap();
    assert_eq!(cur.get_next_byte(), Ok(0xAC));
    assert_eq!(cur.remaining_bits(), 4);
}

#[test]
fn skipping_more_bits_than_remain_fails_without_moving() {
    let mut cur = Cursor::from_bytes(vec![0x01]);
    assert_eq!(cur.skip_bits(9), Err(DecodeError::Truncated));
    assert_eq!(cur.remaining_bits(), 8);
    assert_eq!(cur.skip_bits(8), Ok(()));
    assert_eq!(cur.remaining_bits(), 0);
}
