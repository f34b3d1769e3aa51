use bae_types::{Math, Sample, SampleTrack};
use std::cmp::Ordering;

fn math_of(x: f64) -> Math {
    Math::from(x.to_bits())
}

fn sample_of(x: f32) -> Sample {
    Sample::from(x.to_bits())
}

const F64_VALUES: [f64; 12] = [
    0.0,
    -0.0,
    1.5,
    -1.5,
    2.5,
    f64::NAN,
    f64::INFINITY,
    f64::NEG_INFINITY,
    f64::MIN_POSITIVE,
    5e-324,
    1.7e308,
    -1.7e308,
];

const F32_VALUES: [f32; 12] = [
    0.0,
    -0.0,
    1.5,
    -1.5,
    2.5,
    f32::NAN,
    f32::INFINITY,
    f32::NEG_INFINITY,
    f32::MIN_POSITIVE,
    1e-45,
    3.4e38,
    -3.4e38,
];

#[test]
fn math_less_scenario() {
    assert_eq!(
        math_of(1.5).partial_cmp(&math_of(2.5)),
        Some(Ordering::Less)
    );
}

#[test]
fn sample_nan_unordered_scenario() {
    assert_eq!(sample_of(f32::NAN).partial_cmp(&sample_of(1.0)), None);
    assert_eq!(sample_of(1.0).partial_cmp(&sample_of(f32::NAN)), None);
    assert_eq!(
        sample_of(f32::NAN).partial_cmp(&sample_of(f32::NAN)),
        None
    );
}

#[test]
fn sample_zero_equals_negative_zero() {
    assert!(sample_of(0.0) == sample_of(-0.0));
    assert!(sample_of(-0.0) == sample_of(0.0));
}

#[test]
fn math_nan_never_equal() {
    assert!(math_of(f64::NAN) != math_of(f64::NAN));
    assert!(math_of(f64::NAN) != math_of(1.0));
    assert!(math_of(1.0) != math_of(f64::NAN));
}

#[test]
fn track_keeps_length_and_order() {
    let mut track: SampleTrack = SampleTrack::new();
    track.push(sample_of(0.1));
    track.push(sample_of(0.2));
    track.push(sample_of(0.3));
    assert_eq!(track.len(), 3);
    let expected: [f32; 3] = [0.1, 0.2, 0.3];
    for (got, want) in track.iter().zip(expected.iter()) {
        assert_eq!(got.0, want.to_bits());
    }
}

#[test]
fn sample_default_unwraps_to_fast_zero() {
    let raw: u32 = Sample::default().into();
    assert_eq!(f32::from_bits(raw), 0.0f32);
    assert_eq!(raw, 0.0f32.to_bits());
}

#[test]
fn math_default_is_wrapped_zero() {
    assert!(Math::default() == math_of(0.0));
    assert!(Math::default() == math_of(-0.0));
    let raw: u64 = Math::default().into();
    assert_eq!(f64::from_bits(raw), 0.0f64);
}

#[test]
fn sample_default_is_wrapped_zero() {
    assert!(Sample::default() == sample_of(0.0));
    assert!(Sample::default() == sample_of(-0.0));
}

#[test]
fn math_round_trip_is_exact() {
    for &x in F64_VALUES.iter() {
        let back: u64 = u64::from(Math::from(x.to_bits()));
        assert_eq!(back, x.to_bits());
        let via_into: u64 = Math::from(x.to_bits()).into();
        assert_eq!(via_into, x.to_bits());
    }
}

#[test]
fn sample_round_trip_is_exact() {
    for &x in F32_VALUES.iter() {
        let back: u32 = u32::from(Sample::from(x.to_bits()));
        assert_eq!(back, x.to_bits());
        let via_into: u32 = Sample::from(x.to_bits()).into();
        assert_eq!(via_into, x.to_bits());
    }
}

#[test]
fn math_equality_matches_ieee() {
    for &x in F64_VALUES.iter() {
        for &y in F64_VALUES.iter() {
            assert_eq!(math_of(x) == math_of(y), x == y, "x = {x}, y = {y}");
            assert_eq!(math_of(x) != math_of(y), x != y, "x = {x}, y = {y}");
        }
    }
}

#[test]
fn sample_equality_matches_ieee() {
    for &x in F32_VALUES.iter() {
        for &y in F32_VALUES.iter() {
            assert_eq!(sample_of(x) == sample_of(y), x == y, "x = {x}, y = {y}");
            assert_eq!(sample_of(x) != sample_of(y), x != y, "x = {x}, y = {y}");
        }
    }
}

#[test]
fn math_ordering_matches_ieee() {
    for &x in F64_VALUES.iter() {
        for &y in F64_VALUES.iter() {
            assert_eq!(
                math_of(x).partial_cmp(&math_of(y)),
                x.partial_cmp(&y),
                "x = {x}, y = {y}"
            );
            assert_eq!(math_of(x) < math_of(y), x < y, "x = {x}, y = {y}");
            assert_eq!(math_of(x) <= math_of(y), x <= y, "x = {x}, y = {y}");
            assert_eq!(math_of(x) > math_of(y), x > y, "x = {x}, y = {y}");
            assert_eq!(math_of(x) >= math_of(y), x >= y, "x = {x}, y = {y}");
        }
    }
}

#[test]
fn sample_ordering_matches_ieee() {
    for &x in F32_VALUES.iter() {
        for &y in F32_VALUES.iter() {
            assert_eq!(
                sample_of(x).partial_cmp(&sample_of(y)),
                x.partial_cmp(&y),
                "x = {x}, y = {y}"
            );
            assert_eq!(sample_of(x) < sample_of(y), x < y, "x = {x}, y = {y}");
        }
    }
}

#[test]
fn math_ordering_is_antisymmetric() {
    for &x in F64_VALUES.iter() {
        for &y in F64_VALUES.iter() {
            let forward = math_of(x).partial_cmp(&math_of(y));
            let backward = math_of(y).partial_cmp(&math_of(x));
            assert_eq!(forward.map(Ordering::reverse), backward, "x = {x}, y = {y}");
        }
    }
}

#[test]
fn math_ordering_is_transitive() {
    for &x in F64_VALUES.iter() {
        for &y in F64_VALUES.iter() {
            for &z in F64_VALUES.iter() {
                let xy = math_of(x).partial_cmp(&math_of(y));
                let yz = math_of(y).partial_cmp(&math_of(z));
                if xy == Some(Ordering::Less) && yz == Some(Ordering::Less) {
                    assert_eq!(
                        math_of(x).partial_cmp(&math_of(z)),
                        Some(Ordering::Less),
                        "x = {x}, y = {y}, z = {z}"
                    );
                }
            }
        }
    }
}

#[test]
fn sample_ordering_is_antisymmetric_and_transitive() {
    for &x in F32_VALUES.iter() {
        for &y in F32_VALUES.iter() {
            let forward = sample_of(x).partial_cmp(&sample_of(y));
            let backward = sample_of(y).partial_cmp(&sample_of(x));
            assert_eq!(forward.map(Ordering::reverse), backward, "x = {x}, y = {y}");
            for &z in F32_VALUES.iter() {
                let yz = sample_of(y).partial_cmp(&sample_of(z));
                if forward == Some(Ordering::Less) && yz == Some(Ordering::Less) {
                    assert_eq!(
                        sample_of(x).partial_cmp(&sample_of(z)),
                        Some(Ordering::Less),
                        "x = {x}, y = {y}, z = {z}"
                    );
                }
            }
        }
    }
}

#[test]
fn math_copies_freely() {
    let a = math_of(1.5);
    let b = a;
    let c = a.clone();
    assert!(a == b);
    assert!(a == c);
}

#[test]
fn wrappers_distinguish_nan_payloads_from_order() {
    // Two different not-a-number payloads: unequal, unordered, both detected.
    let quiet = 0x7FF8_0000_0000_0000u64;
    let signalling = 0x7FF0_0000_0000_0001u64;
    assert!(f64::from_bits(quiet).is_nan() && f64::from_bits(signalling).is_nan());
    assert!(Math::from(quiet) != Math::from(signalling));
    assert_eq!(Math::from(quiet).partial_cmp(&Math::from(signalling)), None);
    // The infinity patterns themselves are ordered, not not-a-number.
    assert_eq!(
        math_of(f64::NEG_INFINITY).partial_cmp(&math_of(f64::INFINITY)),
        Some(Ordering::Less)
    );
}
