use raytracing::interval::Interval;
use raytracing::scalar::Scalar;

fn s(x: f32) -> Scalar {
    Scalar::from_bits(x.to_bits())
}

fn values() -> Vec<f32> {
    vec![
        f32::NEG_INFINITY,
        -5.0,
        -1.0,
        -0.0,
        0.0,
        0.001,
        0.5,
        1.0,
        4.0,
        6.0,
        f32::MAX,
        f32::INFINITY,
        f32::NAN,
    ]
}

fn contains(min: f32, max: f32, x: f32) -> bool {
    x >= min && x <= max
}

fn surrounds(min: f32, max: f32, x: f32) -> bool {
    (x < min && x < max) || (x > min && x > max)
}

fn clamp(min: f32, max: f32, x: f32) -> f32 {
    if x < min {
        min
    } else if x > max {
        max
    } else {
        x
    }
}

#[test]
fn interval_holds_its_bounds() {
    let t = Interval::new(s(0.001), s(6.0));
    assert_eq!(t.min.to_bits(), 0.001f32.to_bits());
    assert_eq!(t.max.to_bits(), 6.0f32.to_bits());
}

#[test]
fn interval_agrees_with_the_hardware() {
    for &min in &values() {
        for &max in &values() {
            let t = Interval::new(s(min), s(max));
            for &x in &values() {
                assert_eq!(t.contains(s(x)), contains(min, max, x), "[{min}, {max}] contains {x}");
                assert_eq!(t.surrounds(s(x)), surrounds(min, max, x), "[{min}, {max}] surrounds {x}");
                assert_eq!(
                    t.clamp(s(x)).to_bits(),
                    clamp(min, max, x).to_bits(),
                    "[{min}, {max}] clamp {x}"
                );
            }
        }
    }
}

#[test]
fn contains_includes_the_bounds() {
    let t = Interval::new(s(1.0), s(4.0));
    assert!(t.contains(s(1.0)));
    assert!(t.contains(s(4.0)));
    assert!(t.contains(s(2.5)));
    assert!(!t.contains(s(0.99999994)));
    assert!(!t.contains(s(4.0000005)));
}

#[test]
fn surrounds_is_strictly_outside() {
    let t = Interval::new(s(1.0), s(4.0));
    assert!(!t.surrounds(s(1.0)));
    assert!(!t.surrounds(s(4.0)));
    assert!(!t.surrounds(s(2.5)));
    assert!(t.surrounds(s(0.5)));
    assert!(t.surrounds(s(4.5)));
    assert!(!t.surrounds(s(f32::NAN)));
}

#[test]
fn surrounds_negates_contains_on_ordered_intervals() {
    for &min in &values() {
        for &max in &values() {
            if !(min <= max) {
                continue;
            }
            let t = Interval::new(s(min), s(max));
            for &x in &values() {
                if x.is_nan() {
                    continue;
                }
                assert_eq!(t.surrounds(s(x)), !t.contains(s(x)), "[{min}, {max}] and {x}");
            }
        }
    }
}

#[test]
fn clamp_projects_into_the_bounds() {
    let t = Interval::new(s(1.0), s(4.0));
    assert_eq!(t.clamp(s(0.5)).to_bits(), 1.0f32.to_bits());
    assert_eq!(t.clamp(s(4.5)).to_bits(), 4.0f32.to_bits());
    assert_eq!(t.clamp(s(2.5)).to_bits(), 2.5f32.to_bits());
    assert!(f32::from_bits(t.clamp(s(f32::NAN)).to_bits()).is_nan());
}

#[test]
fn empty_holds_nothing_and_universe_everything() {
    let empty = Interval::empty();
    let universe = Interval::universe();
    assert_eq!(empty.min.to_bits(), f32::INFINITY.to_bits());
    assert_eq!(empty.max.to_bits(), f32::NEG_INFINITY.to_bits());
    assert_eq!(universe.min.to_bits(), f32::NEG_INFINITY.to_bits());
    assert_eq!(universe.max.to_bits(), f32::INFINITY.to_bits());
    for &x in &values() {
        assert!(!empty.contains(s(x)));
        assert_eq!(universe.contains(s(x)), !x.is_nan());
        assert!(!universe.surrounds(s(x)));
    }
}

#[test]
fn interval_agrees_with_the_hardware_on_many_patterns() {
    let mut state: u64 = 0x9e37_79b9_7f4a_7c15;
    let mut next = || {
        state ^= state << 13;
        state ^= state >> 7;
        state ^= state << 17;
        f32::from_bits((state >> 20) as u32)
    };
    for _ in 0..20_000 {
        let (min, max, x) = (next(), next(), next());
        let t = Interval::new(s(min), s(max));
        assert_eq!(t.contains(s(x)), contains(min, max, x));
        assert_eq!(t.surrounds(s(x)), surrounds(min, max, x));
        assert_eq!(t.clamp(s(x)).to_bits(), clamp(min, max, x).to_bits());
    }
}
