use rust_game::transform::{Rotation, FULL_TURN, INITIAL_ROTATION};

#[test]
fn starts_at_a_quarter_turn() {
    assert_eq!(Rotation::new().microdegrees(), INITIAL_ROTATION);
    assert_eq!(INITIAL_ROTATION, 90_000_000);
}

#[test]
fn one_second_composes_a_further_quarter_turn() {
    let mut r = Rotation::new();
    r.advance(1_000_000);
    assert_eq!(r.microdegrees(), 180_000_000);
}

#[test]
fn rotation_wraps_at_a_full_turn() {
    let mut r = Rotation::new();
    r.advance(3_000_000);
    assert_eq!(r.microdegrees(), 0);
    r.advance(4_000_001);
    assert_eq!(r.microdegrees(), 90);
    r.advance(u32::MAX);
    assert_eq!(r.microdegrees(), (90 + 90 * u32::MAX as u64) % FULL_TURN);
}

#[test]
fn split_advances_match_one_advance() {
    let mut a = Rotation::new();
    a.advance(16_666);
    a.advance(250_001);
    let mut b = Rotation::new();
    b.advance(266_667);
    assert_eq!(a.microdegrees(), b.microdegrees());
}
