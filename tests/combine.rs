use chap8::{combine, split_nibbles};

#[test]
fn combine_test1() {
    let inst = [0x1, 0x2, 0x3];
    let combo = combine(&inst);
    assert!(0x123 == combo);
}

#[test]
fn combine_test2() {
    let inst = [0x3];
    let combo = combine(&inst);
    assert!(0x3 == combo);
}

#[test]
fn combine_test3() {
    let inst = [0x1, 0x2, 0x3, 0x4];
    let combo = combine(&inst);
    assert!(0x1234 == combo);
}

#[test]
fn combine_empty_is_zero() {
    assert_eq!(combine(&[]), 0);
}

#[test]
fn combine_keeps_low_sixteen_bits() {
    assert_eq!(combine(&[0x1, 0x2, 0x3, 0x4, 0x5]), 0x2345);
}

#[test]
fn split_nibbles_high_first() {
    assert_eq!(split_nibbles(0xA2, 0x2A), [0xA, 0x2, 0x2, 0xA]);
    assert_eq!(split_nibbles(0x00, 0xE0), [0x0, 0x0, 0xE, 0x0]);
}
