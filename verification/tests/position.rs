use spacetrade::chance::{offset_from, random_between};
use spacetrade::pos::Position;
use spacetrade::text::decimal_string;

#[test]
fn distance_three_four_is_five() {
    let a = Position::new(0, 0);
    let b = Position::new(3, 4);
    assert_eq!(a.distance(&b), 5);
}

#[test]
fn distance_truncates_the_root_of_two() {
    let a = Position::new(0, 0);
    let b = Position::new(1, 1);
    assert_eq!(a.distance(&b), 1);
}

#[test]
fn distance_to_self_is_zero() {
    for p in [Position::new(0, 0), Position::new(-7, 12), Position::new(i32::MAX, i32::MIN)] {
        assert_eq!(p.distance(&p), 0);
    }
}

#[test]
fn distance_is_symmetric() {
    let points = [
        Position::new(0, 0),
        Position::new(5000, 5060),
        Position::new(-3, 9999),
        Position::new(i32::MIN, 17),
        Position::new(i32::MAX, i32::MAX),
    ];
    for a in points {
        for b in points {
            assert_eq!(a.distance(&b), b.distance(&a));
            assert!(a.distance(&b) >= 0);
        }
    }
}

#[test]
fn distance_just_below_and_at_a_square() {
    let origin = Position::new(0, 0);
    assert_eq!(origin.distance(&Position::new(0, 99)), 99);
    // 70^2 + 71^2 = 9941, and 99^2 = 9801 <= 9941 < 10000
    assert_eq!(origin.distance(&Position::new(70, 71)), 99);
    // 60^2 + 80^2 = 10000
    assert_eq!(origin.distance(&Position::new(60, 80)), 100);
    assert_eq!(Position::new(-60, 10).distance(&Position::new(0, -70)), 100);
}

#[test]
fn distance_is_exact_for_large_coordinates() {
    let origin = Position::new(0, 0);
    assert_eq!(origin.distance(&Position::new(i32::MAX, 0)), i32::MAX);
    // 1_000_000_000 * sqrt(2) = 1_414_213_562.37...
    assert_eq!(origin.distance(&Position::new(1_000_000_000, 1_000_000_000)), 1_414_213_562);
    assert_eq!(
        Position::new(-500_000_000, -500_000_000).distance(&Position::new(500_000_000, 500_000_000)),
        1_414_213_562
    );
}

#[test]
fn distance_stops_at_the_largest_i32() {
    let a = Position::new(i32::MIN, i32::MIN);
    let b = Position::new(i32::MAX, i32::MAX);
    assert_eq!(a.distance(&b), i32::MAX);
    assert_eq!(Position::new(i32::MIN, 0).distance(&Position::new(i32::MAX, 0)), i32::MAX);
    assert_eq!(Position::new(0, 0).distance(&Position::new(i32::MAX, i32::MAX)), i32::MAX);
}

#[test]
fn random_position_lies_in_the_square() {
    let mut seen_other_than_first = false;
    let first = Position::random(50);
    for _ in 0..200 {
        let p = Position::random(50);
        assert!(0 <= p.x && p.x < 50);
        assert!(0 <= p.y && p.y < 50);
        if p != first {
            seen_other_than_first = true;
        }
    }
    assert!(seen_other_than_first);
    let one = Position::random(1);
    assert_eq!(one, Position::new(0, 0));
}

#[test]
fn decimal_text_of_integers() {
    assert_eq!(decimal_string(0), "0");
    assert_eq!(decimal_string(7), "7");
    assert_eq!(decimal_string(10), "10");
    assert_eq!(decimal_string(7400), "7400");
    assert_eq!(decimal_string(-1), "-1");
    assert_eq!(decimal_string(-600), "-600");
    assert_eq!(decimal_string(i32::MAX), "2147483647");
    assert_eq!(decimal_string(i32::MIN), "-2147483648");
}

#[test]
fn draw_is_counted_from_the_low_end() {
    assert_eq!(offset_from(-5, 15, 0), -5);
    assert_eq!(offset_from(-5, 15, 5), 0);
    assert_eq!(offset_from(-5, 15, 19), 14);
    assert_eq!(offset_from(0, 10000, 9999), 9999);
    assert_eq!(offset_from(i32::MIN, i32::MAX, 0), i32::MIN);
    assert_eq!(offset_from(i32::MIN, i32::MAX, 4294967294), i32::MAX - 1);
}

#[test]
fn random_between_stays_in_its_range() {
    let mut seen = [false; 20];
    for _ in 0..2000 {
        let r = random_between(-5, 15);
        assert!(-5 <= r && r < 15);
        seen[(r + 5) as usize] = true;
    }
    assert!(seen.iter().filter(|s| **s).count() > 1);
    assert_eq!(random_between(7, 8), 7);
    assert_eq!(random_between(i32::MAX - 1, i32::MAX), i32::MAX - 1);
}
