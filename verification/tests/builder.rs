//! Tests of the table builder: registration, range registration, subsets,
//! and the fail-fast behaviour on conflicting registrations.

use tvm_disasm::DecodeError;
use tvm_disasm::cursor::Cursor;
use tvm_disasm::handlers::{BuildError, HandlerId, Handlers};

fn resolve_one(t: &Handlers, byte: u8) -> Result<HandlerId, DecodeError> {
    let mut cur = Cursor::from_bytes(vec![byte]);
    t.get_handler(&mut cur)
}

#[test]
fn fresh_table_resolves_every_byte_to_unknown() {
    let t = Handlers::new();
    for c in 0..=255u8 {
        assert_eq!(resolve_one(&t, c), Ok(HandlerId::Unknown), "byte {c:02X}");
    }
}

#[test]
fn set_binds_exactly_one_byte() {
    let mut t = Handlers::new();
    t.set(0x42, HandlerId::Rot).unwrap();
    assert_eq!(resolve_one(&t, 0x42), Ok(HandlerId::Rot));
    assert_eq!(resolve_one(&t, 0x41), Ok(HandlerId::Unknown));
    assert_eq!(resolve_one(&t, 0x43), Ok(HandlerId::Unknown));
}

#[test]
fn setting_the_same_byte_twice_fails() {
    let mut t = Handlers::new();
    t.set(0x10, HandlerId::Nop).unwrap();
    assert_eq!(
        t.set(0x10, HandlerId::Rot),
        Err(BuildError::Occupied(0x10))
    );
    // The earlier binding is untouched.
    assert_eq!(resolve_one(&t, 0x10), Ok(HandlerId::Nop));
}

#[test]
fn overlapping_ranges_fail_at_the_first_shared_byte() {
    let mut t = Handlers::new();
    t.set_range(0x10, 0x20, HandlerId::Pick).unwrap();
    assert_eq!(
        t.set_range(0x18, 0x28, HandlerId::Tuck),
        Err(BuildError::Occupied(0x18))
    );
}

#[test]
fn range_conflict_keeps_earlier_bytes_bound() {
    let mut t = Handlers::new();
    t.set(0x05, HandlerId::Nop).unwrap();
    assert_eq!(
        t.set_range(0x01, 0x10, HandlerId::Pick),
        Err(BuildError::Occupied(0x05))
    );
    for c in 0x01..0x05u8 {
        assert_eq!(resolve_one(&t, c), Ok(HandlerId::Pick), "byte {c:02X}");
    }
    assert_eq!(resolve_one(&t, 0x05), Ok(HandlerId::Nop));
    for c in 0x06..0x10u8 {
        assert_eq!(resolve_one(&t, c), Ok(HandlerId::Unknown), "byte {c:02X}");
    }
}

#[test]
fn adding_a_subset_on_a_bound_slot_fails() {
    let mut t = Handlers::new();
    t.set(0x33, HandlerId::Nop).unwrap();
    assert_eq!(
        t.add_subset(0x33, Handlers::new()),
        Err(BuildError::Occupied(0x33))
    );
}

#[test]
fn adding_a_subset_twice_fails() {
    let mut t = Handlers::new();
    t.add_subset(0x77, Handlers::new()).unwrap();
    assert_eq!(
        t.add_subset(0x77, Handlers::new()),
        Err(BuildError::Occupied(0x77))
    );
    assert_eq!(t.set(0x77, HandlerId::Nop), Err(BuildError::Occupied(0x77)));
}

#[test]
fn range_binds_half_open_interval() {
    let mut t = Handlers::new();
    t.set_range(0x01, 0x10, HandlerId::XchgSimple).unwrap();
    for c in 0x01..=0x0Fu8 {
        assert_eq!(resolve_one(&t, c), Ok(HandlerId::XchgSimple), "byte {c:02X}");
    }
    assert_eq!(resolve_one(&t, 0x00), Ok(HandlerId::Unknown));
    assert_eq!(resolve_one(&t, 0x10), Ok(HandlerId::Unknown));
}

#[test]
fn empty_range_binds_nothing() {
    let mut t = Handlers::new();
    t.set_range(0x20, 0x20, HandlerId::Nop).unwrap();
    for c in 0..=255u8 {
        assert_eq!(resolve_one(&t, c), Ok(HandlerId::Unknown), "byte {c:02X}");
    }
}

#[test]
fn slot_bound_to_the_fallback_may_be_rebound() {
    let mut t = Handlers::new();
    t.set(0x07, HandlerId::Unknown).unwrap();
    t.set(0x07, HandlerId::Rot).unwrap();
    assert_eq!(resolve_one(&t, 0x07), Ok(HandlerId::Rot));
}

#[test]
fn subset_contents_are_reached_after_the_prefix_byte() {
    let mut inner = Handlers::new();
    inner.set(0x01, HandlerId::Drop2).unwrap();
    let mut t = Handlers::new();
    t.add_subset(0xAB, inner).unwrap();
    let mut cur = Cursor::from_bytes(vec![0xAB, 0x01]);
    assert_eq!(t.get_handler(&mut cur), Ok(HandlerId::Drop2));
    let mut cur = Cursor::from_bytes(vec![0xAB, 0x02]);
    assert_eq!(t.get_handler(&mut cur), Ok(HandlerId::Unknown));
}
