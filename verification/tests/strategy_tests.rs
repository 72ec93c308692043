use survival_bot::money::UNIT;
use survival_bot::strategy::PositionSizer;

#[test]
fn test_high_confidence() {
    let size = PositionSizer::calculate(100 * UNIT, 95, 5 * UNIT);
    // 10% of the 95 tradeable units
    assert_eq!(size, 950_000_000);
}

#[test]
fn test_medium_confidence() {
    let size = PositionSizer::calculate(100 * UNIT, 85, 5 * UNIT);
    // 6% of the 95 tradeable units
    assert_eq!(size, 570_000_000);
}

#[test]
fn test_low_confidence_forced_hold() {
    let size = PositionSizer::calculate(100 * UNIT, 60, 5 * UNIT);
    assert_eq!(size, 0);
}

#[test]
fn test_below_minimum_balance() {
    let size = PositionSizer::calculate(4 * UNIT, 95, 5 * UNIT);
    assert_eq!(size, 0);
}

#[test]
fn size_zero_when_balance_equals_reserve() {
    assert_eq!(PositionSizer::calculate(5 * UNIT, 95, 5 * UNIT), 0);
}

#[test]
fn size_non_decreasing_across_brackets() {
    let b = 1000 * UNIT;
    let m = 5 * UNIT;
    let mut last = 0;
    for c in [0, 42, 69, 70, 75, 79, 80, 85, 89, 90, 95, 100] {
        let s = PositionSizer::calculate(b, c, m);
        assert!(s >= last, "size dropped at confidence {}", c);
        last = s;
    }
    assert_eq!(PositionSizer::calculate(b, 69, m), 0);
}

#[test]
fn size_under_exchange_minimum_is_zero() {
    // 3% of 100 tradeable units is 3, under the 5-unit order floor
    assert_eq!(PositionSizer::calculate(105 * UNIT, 75, 5 * UNIT), 0);
}
