//! Scenario tests for the dispatch engine on the reference table.

use tvm_disasm::DecodeError;
use tvm_disasm::cursor::Cursor;
use tvm_disasm::handlers::{HandlerId, Handlers, Mode};

#[test]
fn decode_nop_consumes_one_byte() {
    let t = Handlers::new_code_page_0();
    let mut cur = Cursor::from_bytes(vec![0x00]);
    assert_eq!(t.get_handler(&mut cur), Ok(HandlerId::Nop));
    assert_eq!(cur.remaining_bits(), 0);
}

#[test]
fn empty_stream_is_truncated() {
    let t = Handlers::new_code_page_0();
    let mut cur = Cursor::from_bytes(vec![]);
    assert_eq!(t.get_handler(&mut cur), Err(DecodeError::Truncated));
    assert_eq!(cur.remaining_bits(), 0);
}

#[test]
fn two_level_dispatch_routes_through_subset() {
    let t = Handlers::new_code_page_0();
    let mut cur = Cursor::from_bytes(vec![0x54, 0x05]);
    assert_eq!(t.get_handler(&mut cur), Ok(HandlerId::Xchg3));
    assert_eq!(cur.remaining_bits(), 0);
}

#[test]
fn subset_prefix_alone_is_truncated() {
    let t = Handlers::new_code_page_0();
    let mut cur = Cursor::from_bytes(vec![0x54]);
    assert_eq!(t.get_handler(&mut cur), Err(DecodeError::Truncated));
    // The subset byte itself was consumed before the stream ran short.
    assert_eq!(cur.remaining_bits(), 0);
}

#[test]
fn inner_table_reuses_its_own_top_boundary_byte() {
    let t = Handlers::new_code_page_0();
    let mut cur = Cursor::from_bytes(vec![0xFF, 0xFF]);
    assert_eq!(t.get_handler(&mut cur), Ok(HandlerId::Setcp));
    assert_eq!(cur.remaining_bits(), 0);
}

#[test]
fn signaling_and_quiet_twins_are_distinct_slots() {
    let t = Handlers::new_code_page_0();
    let mut cur = Cursor::from_bytes(vec![0xA0]);
    assert_eq!(t.get_handler(&mut cur), Ok(HandlerId::Add(Mode::Signaling)));
    let mut cur = Cursor::from_bytes(vec![0xB7, 0xA0]);
    assert_eq!(t.get_handler(&mut cur), Ok(HandlerId::Add(Mode::Quiet)));
    assert_ne!(
        HandlerId::Add(Mode::Signaling),
        HandlerId::Add(Mode::Quiet)
    );
}

#[test]
fn three_level_dispatch_consumes_three_bytes() {
    let t = Handlers::new_code_page_0();
    let mut cur = Cursor::from_bytes(vec![0xB7, 0xB6, 0x0B, 0x00]);
    assert_eq!(t.get_handler(&mut cur), Ok(HandlerId::Abs(Mode::Quiet)));
    assert_eq!(cur.remaining_bits(), 8);
}

#[test]
fn truncation_inside_nested_subset() {
    let t = Handlers::new_code_page_0();
    let mut cur = Cursor::from_bytes(vec![0xB7, 0xB6]);
    assert_eq!(t.get_handler(&mut cur), Err(DecodeError::Truncated));
    assert_eq!(cur.remaining_bits(), 0);
}

#[test]
fn unregistered_bytes_fall_back_to_unknown() {
    let t = Handlers::new_code_page_0();
    for c in [0x86u8, 0x87, 0xAF, 0xC6, 0xEF, 0xF5, 0xF6, 0xF7, 0xFC, 0xFD] {
        let mut cur = Cursor::from_bytes(vec![c]);
        assert_eq!(t.get_handler(&mut cur), Ok(HandlerId::Unknown), "byte {c:02X}");
    }
}

#[test]
fn unregistered_byte_inside_subset_falls_back() {
    let t = Handlers::new_code_page_0();
    let mut cur = Cursor::from_bytes(vec![0xB6, 0x04]);
    assert_eq!(t.get_handler(&mut cur), Ok(HandlerId::Unknown));
    assert_eq!(cur.remaining_bits(), 0);
}

#[test]
fn dispatch_works_at_unaligned_bit_positions() {
    // 4 bits of operand padding, then the nop opcode byte.
    let t = Handlers::new_code_page_0();
    let mut cur = Cursor::from_bytes(vec![0xF0, 0x0F]);
    cur.skip_bits(4).unwrap();
    assert_eq!(t.get_handler(&mut cur), Ok(HandlerId::Nop));
    assert_eq!(cur.remaining_bits(), 4);
}

#[test]
fn exactly_the_subset_bytes_need_a_second_byte() {
    let t = Handlers::new_code_page_0();
    let subset_bytes = [
        0x54u8, 0x5F, 0x6C, 0x6F, 0x83, 0xB6, 0xB7, 0xC7, 0xCF, 0xD7, 0xDB, 0xE3, 0xED, 0xF1,
        0xF2, 0xF4, 0xF8, 0xF9, 0xFA, 0xFB, 0xFE, 0xFF,
    ];
    for c in 0..=255u8 {
        let mut cur = Cursor::from_bytes(vec![c]);
        let got = t.get_handler(&mut cur);
        if subset_bytes.contains(&c) {
            assert_eq!(got, Err(DecodeError::Truncated), "byte {c:02X}");
        } else {
            assert!(got.is_ok(), "byte {c:02X}");
        }
    }
}
