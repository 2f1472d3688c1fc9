use xim_protocol::roundup;

#[test]
fn roundup_sanity() {
    assert_eq!(roundup(3, 4), 4);
    assert_eq!(roundup(4, 4), 4);
    assert_eq!(roundup(5, 4), 8);
    assert_eq!(roundup(256, 4), 256);
    assert_eq!(roundup(257, 4), 260);
}

#[test]
fn roundup_zero_and_factor_one() {
    assert_eq!(roundup(0, 4), 0);
    assert_eq!(roundup(7, 1), 7);
    assert_eq!(roundup(9, 3), 9);
    assert_eq!(roundup(10, 3), 12);
}
