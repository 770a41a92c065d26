//! Tests of the method-dictionary packing decisions.

use tvm_disasm::methdict::{MAX_INLINE_BITS, fits_as_leaf, shift_debug_entries};

#[test]
fn inline_limit_is_the_cell_capacity_minus_overheads() {
    assert_eq!(MAX_INLINE_BITS, 1023 - (32 + 10));
    assert!(fits_as_leaf(0));
    assert!(fits_as_leaf(981));
    assert!(!fits_as_leaf(982));
}

#[test]
fn shifting_entries_rebases_offsets_and_keeps_payloads() {
    let entries = vec![(0usize, "a"), (7, "b"), (41, "c")];
    let shifted = shift_debug_entries(entries, 10);
    assert_eq!(shifted, vec![(10, "a"), (17, "b"), (51, "c")]);
}

#[test]
fn shifting_by_zero_is_identity() {
    let entries = vec![(3usize, 30u32), (5, 50)];
    assert_eq!(shift_debug_entries(entries.clone(), 0), entries);
}
