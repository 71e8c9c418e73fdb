use wand::component::Position;
use wand::units::{pad, portion, sat_add, sat_sub, FULL};

#[test]
fn whole_is_a_thousand() {
    assert_eq!(FULL, 1000);
}

#[test]
fn sums_saturate() {
    assert_eq!(sat_add(2, 3), 5);
    assert_eq!(sat_add(i64::MAX, 1), i64::MAX);
    assert_eq!(sat_add(i64::MIN, -1), i64::MIN);
    assert_eq!(sat_sub(2, 3), -1);
    assert_eq!(sat_sub(i64::MIN, 1), i64::MIN);
    assert_eq!(sat_sub(i64::MAX, -1), i64::MAX);
    assert_eq!(sat_sub(0, i64::MIN), i64::MAX);
}

#[test]
fn portion_rounds_toward_zero() {
    assert_eq!(portion(500, 272), 136);
    assert_eq!(portion(1000, 752), 752);
    assert_eq!(portion(0, 752), 0);
    assert_eq!(portion(333, 10), 3);
    assert_eq!(portion(333, -10), -3);
    assert_eq!(portion(800, 196), 156);
    assert_eq!(portion(20, 760), 15);
}

#[test]
fn portion_saturates() {
    assert_eq!(portion(2000, i64::MAX), i64::MAX);
    assert_eq!(portion(2000, i64::MIN), i64::MIN);
    assert_eq!(portion(1000, i64::MIN), i64::MIN);
    assert_eq!(portion(1000, i64::MAX), i64::MAX);
}

#[test]
fn padding_is_clamped() {
    // a fifth of 800 is 160, held to at most 20
    assert_eq!(pad(800, 200, 10, 20), 20);
    // a fifth of 40 is 8, raised to at least 10
    assert_eq!(pad(40, 200, 10, 20), 10);
    assert_eq!(pad(75, 200, 10, 20), 15);
    // where the least is above the greatest, the greatest wins
    assert_eq!(pad(75, 200, 30, 20), 20);
    assert_eq!(pad(-500, 200, 0, 20), 0);
}

#[test]
fn point_in_rectangle_is_strict() {
    let p = Position::new(60, 60);
    assert!(p.in_rec(50, 50, 100, 100));
    assert!(!p.in_rec(60, 50, 100, 100));
    assert!(!p.in_rec(50, 60, 100, 100));
    assert!(!p.in_rec(50, 50, 10, 100));
    assert!(!p.in_rec(50, 50, 100, 10));
    assert!(!Position::new(10, 10).in_rec(50, 50, 100, 100));
}

#[test]
fn point_in_area_is_strict() {
    let p = Position::new(60, 60);
    assert!(p.in_area(50, 50, 150, 150));
    assert!(!p.in_area(50, 50, 60, 150));
    assert!(!p.in_area(50, 50, 150, 60));
    assert!(!p.in_area(60, 50, 150, 150));
    assert!(!p.in_area(100, 100, 50, 50));
}
