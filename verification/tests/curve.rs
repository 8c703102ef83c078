use fw_fanctrl::config::CurvePoint;
use fw_fanctrl::curve::interpolate;

#[test]
fn test_interpolate_below_min() {
    let curve = vec![
        CurvePoint {
            temp: 50,
            speed: 15,
        },
        CurvePoint {
            temp: 70,
            speed: 100,
        },
    ];
    assert_eq!(interpolate(&curve, 30), 15);
}

#[test]
fn test_interpolate_above_max() {
    let curve = vec![
        CurvePoint {
            temp: 50,
            speed: 15,
        },
        CurvePoint {
            temp: 70,
            speed: 100,
        },
    ];
    assert_eq!(interpolate(&curve, 100), 100);
}

#[test]
fn test_interpolate_exact_point() {
    let curve = vec![
        CurvePoint {
            temp: 50,
            speed: 15,
        },
        CurvePoint {
            temp: 70,
            speed: 100,
        },
    ];
    assert_eq!(interpolate(&curve, 50), 15);
}

#[test]
fn test_interpolate_midpoint() {
    let curve = vec![
        CurvePoint {
            temp: 50,
            speed: 15,
        },
        CurvePoint {
            temp: 70,
            speed: 100,
        },
    ];
    assert_eq!(interpolate(&curve, 60), 55);
}

#[test]
fn test_interpolate_empty_curve() {
    let curve: Vec<CurvePoint> = vec![];
    assert_eq!(interpolate(&curve, 50), 0);
}

#[test]
fn test_interpolate_single_point() {
    let curve = vec![CurvePoint {
        temp: 50,
        speed: 50,
    }];
    assert_eq!(interpolate(&curve, 30), 50);
    assert_eq!(interpolate(&curve, 70), 50);
}

#[test]
fn test_interpolate_monotone_over_range() {
    let curve = vec![
        CurvePoint { temp: 0, speed: 0 },
        CurvePoint {
            temp: 50,
            speed: 30,
        },
        CurvePoint {
            temp: 70,
            speed: 60,
        },
        CurvePoint {
            temp: 90,
            speed: 100,
        },
    ];
    let mut last = 0;
    for t in 0..120 {
        let s = interpolate(&curve, t);
        assert!(s >= last, "speed dropped from {} to {} at {}", last, s, t);
        assert!(s <= 100);
        last = s;
    }
}

#[test]
fn test_interpolate_exact_knot_favors_lower_point() {
    let curve = vec![
        CurvePoint {
            temp: 40,
            speed: 10,
        },
        CurvePoint {
            temp: 60,
            speed: 50,
        },
        CurvePoint {
            temp: 80,
            speed: 90,
        },
    ];
    // At an exact knot temperature the scan stops on that knot and
    // interpolates from its predecessor: 10 + (60-40) * ((50-10)/(60-40)).
    assert_eq!(interpolate(&curve, 60), 50);
    // Just above the first knot the slope of the first segment applies.
    assert_eq!(interpolate(&curve, 41), 12);
}

#[test]
fn test_interpolate_truncating_slope() {
    // Slope (100 - 15) / (70 - 50) truncates to 4.
    let curve = vec![
        CurvePoint {
            temp: 50,
            speed: 15,
        },
        CurvePoint {
            temp: 70,
            speed: 100,
        },
    ];
    assert_eq!(interpolate(&curve, 55), 15 + 5 * 4);
    assert_eq!(interpolate(&curve, 69), 15 + 19 * 4);
}

#[test]
fn test_interpolate_clamps_to_percentage() {
    // A point above the percentage range pushes the raw interpolation
    // past 100 inside the segment; the result clamps.
    let curve = vec![
        CurvePoint { temp: 0, speed: 0 },
        CurvePoint {
            temp: 10,
            speed: 200,
        },
    ];
    assert_eq!(interpolate(&curve, 6), 100);
}

#[test]
fn test_interpolate_falling_curve() {
    // Out-of-order speeds are interpolated with a negative, truncating
    // slope.
    let falling = vec![
        CurvePoint {
            temp: 0,
            speed: 100,
        },
        CurvePoint { temp: 10, speed: 0 },
    ];
    assert_eq!(interpolate(&falling, 5), 50);
    assert_eq!(interpolate(&falling, 10), 0);
}
