use chess_core::{Bitboard, Pos};

#[test]
fn display_impl() {
    assert_eq!(
        Bitboard::new(0x1234567890abcdef).to_string(),
        "1234567890abcdef"
    );
}

#[test]
fn bitboard_display_impl() {
    assert_eq!(
        Bitboard::new(0x1234567890abcdef).to_string(),
        "1234567890abcdef"
    );
}

#[test]
fn iterator() {
    assert_eq!(
        Bitboard::new(1).positions(),
        vec![Pos::from_value(0)]
    );
}

#[test]
fn bitboard_ops() {
    let mut b = Bitboard::empty();
    assert_eq!(b.count(), 0);
    assert!(b.is_zero());
    b.set(Pos::from_value(10));
    b.set(Pos::from_value(63));
    assert_eq!(b.count(), 2);
    assert!(b.get(Pos::from_value(10)));
    assert!(!b.get(Pos::from_value(11)));
    assert_eq!(b.ilog2(), 63);
    b.clear(Pos::from_value(63));
    assert_eq!(b.ilog2(), 10);
    assert_eq!(b.count(), 1);
    assert_eq!(Bitboard::full().count(), 64);
    assert_eq!(Bitboard::new(0xff).or(Bitboard::new(0xf0f0)).value, 0xf0ff);
    assert_eq!(Bitboard::new(0xff).and(Bitboard::new(0xf0)).value, 0xf0);
    assert_eq!(Bitboard::new(0).complement().value, u64::MAX);
}
