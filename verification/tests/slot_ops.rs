use lazy_pool::slot::{decode_word, encode_index, SlotCell, INITIALIZING, UNINITIALIZED};

#[test]
fn test_word_encoding_round_trip() {
    assert_eq!(encode_index(0), 2);
    assert_eq!(encode_index(5), 7);
    assert_eq!(decode_word(7), 5);
    assert_eq!(decode_word(encode_index(41)), 41);
}

#[test]
fn test_slot_cell_starts_empty() {
    let cell = SlotCell::new();
    assert_eq!(cell.load(), UNINITIALIZED);
}

#[test]
fn test_compare_and_swap_wins_once() {
    let mut cell = SlotCell::new();
    let first = cell.compare_and_swap(UNINITIALIZED, INITIALIZING);
    assert_eq!(first, UNINITIALIZED);
    let second = cell.compare_and_swap(UNINITIALIZED, INITIALIZING);
    assert_eq!(second, INITIALIZING);
    assert_eq!(cell.load(), INITIALIZING);
}

#[test]
fn test_store_and_swap() {
    let mut cell = SlotCell::new();
    cell.store(encode_index(0));
    assert_eq!(cell.load(), 2);
    let prev = cell.swap(INITIALIZING);
    assert_eq!(prev, 2);
    assert_eq!(cell.load(), INITIALIZING);
}
