use motion_analysis::analysis::{
    Analysis, AverageMovementComputation, ComputationKind, MovementComputation,
    MovementDetection, MovementDirection, QuantileMovementComputation, SampleVector, Smoothing,
};
use std::f32::consts::PI;

/// Mean of a window of bit patterns, as the application computes it.
fn mean_bits(window: &[u32]) -> f32 {
    let sum: f32 = window.iter().map(|b| f32::from_bits(*b)).sum();
    sum / window.len() as f32
}

#[test]
fn test_simple_quantile_movement_computation() {
    let mut movement_detection = QuantileMovementComputation::new(30);

    for _i in 0..100usize {
        let movement = movement_detection.add_measurement(0.0f32.to_bits(), 0.0f32.to_bits());
        assert_eq!(
            (f32::from_bits(movement.0), f32::from_bits(movement.1)),
            (0.0, 0.0)
        );
    }
}

#[test]
fn analysis_test_simple_quantile_movement_computation() {
    let mut movement_detection = QuantileMovementComputation::new(30);

    for _i in 0..100usize {
        let movement = movement_detection.add_measurement(0.0f32.to_bits(), 0.0f32.to_bits());
        assert_eq!(
            (f32::from_bits(movement.0), f32::from_bits(movement.1)),
            (0.0, 0.0)
        );
    }
}

#[test]
fn test_quantile_known_window() {
    // A window of 40 distinct ascending values: the statistic must be the
    // element at rank floor(40 * 0.75) = 30 of the sorted column, i.e. 31.0.
    let mut q = QuantileMovementComputation::new(40);
    let mut last: (u32, u32) = (0, 0);
    for i in 1..=40u32 {
        // horizontal ascending 1..=40, vertical descending 40..=1
        last = q.add_measurement((i as f32).to_bits(), ((41 - i) as f32).to_bits());
    }
    assert_eq!(f32::from_bits(last.0), 31.0);
    assert_eq!(f32::from_bits(last.1), 31.0);
}

#[test]
fn test_nan_guard() {
    // NaN, infinities and subnormals are stored as 0.0; an Average-strategy
    // read over the window then sees a zero contribution.
    let mut a = AverageMovementComputation::new(4);
    a.add_measurement(f32::NAN.to_bits(), f32::INFINITY.to_bits());
    a.add_measurement(f32::NEG_INFINITY.to_bits(), 1.0e-40f32.to_bits());
    a.add_measurement(2.0f32.to_bits(), 4.0f32.to_bits());

    let h = a.horizontal_window();
    let v = a.vertical_window();
    assert_eq!(h, vec![0u32, 0u32, 2.0f32.to_bits()]);
    assert_eq!(v, vec![0u32, 0u32, 4.0f32.to_bits()]);
    assert_eq!(mean_bits(&h), 2.0 / 3.0);
    assert_eq!(mean_bits(&v), 4.0 / 3.0);

    // The quantile strategy sees the same substitution.
    let mut q = QuantileMovementComputation::new(4);
    let stat = q.add_measurement(f32::NAN.to_bits(), f32::INFINITY.to_bits());
    assert_eq!(f32::from_bits(stat.0), 0.0);
    assert_eq!(f32::from_bits(stat.1), 0.0);
}

#[test]
fn test_window_bound() {
    // Neither buffer ever grows beyond its configured capacity.
    let mut s = Smoothing::new(5);
    let mut q = MovementComputation::new(5, ComputationKind::Quantile);
    let mut a = MovementComputation::new(5, ComputationKind::Average);
    for i in 0..20u32 {
        let b = (i as f32).to_bits();
        s.add_measurement(SampleVector { x: b, y: b, z: b });
        q.add_measurement(b, b);
        a.add_measurement(b, b);
        assert!(s.len() <= 5);
        assert!(q.len() <= 5);
        assert!(a.len() <= 5);
    }
    assert_eq!(s.len(), 5);
    assert_eq!(q.len(), 5);
    assert_eq!(a.len(), 5);
}

#[test]
fn test_smoothing_constant_input() {
    // Feeding the same vector repeatedly: once the window is full it holds
    // only copies of that vector, its mean is the vector itself, and the
    // smoothed output vanishes.
    let v = SampleVector {
        x: 1.0f32.to_bits(),
        y: 2.0f32.to_bits(),
        z: (-4.0f32).to_bits(),
    };
    let mut s = Smoothing::new(4);
    let mut smoothed: (f32, f32, f32) = (f32::MAX, f32::MAX, f32::MAX);
    for _i in 0..10usize {
        let prior = s.add_measurement(v);
        let n = prior.len().max(1) as f32;
        let mut sum: (f32, f32, f32) = (0.0, 0.0, 0.0);
        for p in &prior {
            sum.0 += f32::from_bits(p.x);
            sum.1 += f32::from_bits(p.y);
            sum.2 += f32::from_bits(p.z);
        }
        smoothed = (
            f32::from_bits(v.x) - sum.0 / n,
            f32::from_bits(v.y) - sum.1 / n,
            f32::from_bits(v.z) - sum.2 / n,
        );
    }
    assert_eq!(smoothed, (0.0, 0.0, 0.0));
}

#[test]
fn test_hysteresis_latch() {
    let threshold = 1.5f32;
    let angle_low = PI / 4.0 - PI / 8.0;
    let angle_high = 1.1 * PI / 4.0;
    let mut d = MovementDetection::new(
        threshold.to_bits(),
        angle_low.to_bits(),
        angle_high.to_bits(),
    );

    // (2.0, 2.0) is above threshold; atan2(2, 2) = pi/4 falls in the
    // diagonal band, so the classifier latches Diagonal.
    let x = 2.0f32.to_bits();
    let y = 2.0f32.to_bits();
    assert!(d.needs_angle(x, y));
    let angle = 2.0f32.atan2(2.0).to_bits();
    assert_eq!(d.next_direction(x, y, angle), Some(MovementDirection::Diagonal));

    // Below threshold: the latch releases.
    let lx = 0.1f32.to_bits();
    let ly = 0.1f32.to_bits();
    assert!(!d.needs_angle(lx, ly));
    assert_eq!(d.next_direction(lx, ly, 0), None);

    // Above threshold again: it re-latches afresh, with no memory of the
    // earlier label beyond the angle itself.
    assert!(d.needs_angle(x, y));
    assert_eq!(d.next_direction(x, y, angle), Some(MovementDirection::Diagonal));
}

#[test]
fn test_latched_label_sticks_while_above_threshold() {
    let mut d = MovementDetection::new(
        1.5f32.to_bits(),
        (PI / 4.0 - PI / 8.0).to_bits(),
        (1.1 * PI / 4.0).to_bits(),
    );
    let x = 2.0f32.to_bits();
    let y = 2.0f32.to_bits();
    let diagonal_angle = 2.0f32.atan2(2.0).to_bits();
    assert_eq!(
        d.next_direction(x, y, diagonal_angle),
        Some(MovementDirection::Diagonal)
    );
    // The angle drifts into the vertical sector, but the signal never drops
    // below threshold: the label is sticky.
    let vertical_angle = (PI / 2.0).to_bits();
    assert_eq!(
        d.next_direction(x, y, vertical_angle),
        Some(MovementDirection::Diagonal)
    );
}

#[test]
fn test_sector_boundaries() {
    let threshold = 1.5f32.to_bits();
    let angle_low = PI / 4.0 - PI / 8.0;
    let angle_high = 1.1 * PI / 4.0;
    let x = 2.0f32.to_bits();
    let y = 2.0f32.to_bits();

    // Just below the low boundary: Horizontal.
    let mut d = MovementDetection::new(threshold, angle_low.to_bits(), angle_high.to_bits());
    let a = (angle_low - 0.01).to_bits();
    assert_eq!(d.next_direction(x, y, a), Some(MovementDirection::Horizontal));

    // Strictly between the boundaries: Diagonal.
    let mut d = MovementDetection::new(threshold, angle_low.to_bits(), angle_high.to_bits());
    let a = ((angle_low + angle_high) / 2.0).to_bits();
    assert_eq!(d.next_direction(x, y, a), Some(MovementDirection::Diagonal));

    // Just above the high boundary: Vertical.
    let mut d = MovementDetection::new(threshold, angle_low.to_bits(), angle_high.to_bits());
    let a = (angle_high + 0.01).to_bits();
    assert_eq!(d.next_direction(x, y, a), Some(MovementDirection::Vertical));

    // Exactly at the high boundary: Vertical (the band is open above).
    let mut d = MovementDetection::new(threshold, angle_low.to_bits(), angle_high.to_bits());
    assert_eq!(
        d.next_direction(x, y, angle_high.to_bits()),
        Some(MovementDirection::Vertical)
    );
}

/// One pipeline tick as the application drives it: smoothing with the mean
/// subtracted, decomposition into planar and vertical magnitudes, the
/// estimator, and the classifier with its angle on demand.
fn pipeline_tick(a: &mut Analysis, sample: (f32, f32, f32)) -> Option<MovementDirection> {
    let prior = a.smoothing.add_measurement(SampleVector {
        x: sample.0.to_bits(),
        y: sample.1.to_bits(),
        z: sample.2.to_bits(),
    });
    let n = prior.len().max(1) as f32;
    let mut sum: (f32, f32, f32) = (0.0, 0.0, 0.0);
    for p in &prior {
        sum.0 += f32::from_bits(p.x);
        sum.1 += f32::from_bits(p.y);
        sum.2 += f32::from_bits(p.z);
    }
    let sx = sample.0 - sum.0 / n;
    let sy = sample.1 - sum.1 / n;
    let sz = sample.2 - sum.2 / n;
    let horizontal = (sx * sx + sy * sy).sqrt();
    let vertical = sz.abs();
    let (eh, ev) = a
        .movement_computation
        .add_measurement(horizontal.to_bits(), vertical.to_bits())
        .expect("the quantile strategy returns its statistic");
    let angle = if a.movement_detection.needs_angle(eh, ev) {
        f32::from_bits(ev).atan2(f32::from_bits(eh))
    } else {
        0.0
    };
    a.movement_detection.next_direction(eh, ev, angle.to_bits())
}

#[test]
fn test_pipeline_stationary() {
    // 200 identical zero samples: never any motion report.
    let mut a = Analysis::new(
        100,
        30,
        1.5f32.to_bits(),
        (PI / 4.0 - PI / 8.0).to_bits(),
        (1.1 * PI / 4.0).to_bits(),
        ComputationKind::Quantile,
    );
    for _i in 0..200usize {
        assert_eq!(pipeline_tick(&mut a, (0.0, 0.0, 0.0)), None);
    }
}

#[test]
fn test_pipeline_vertical_motion() {
    let mut a = Analysis::new(
        100,
        30,
        1.5f32.to_bits(),
        (PI / 4.0 - PI / 8.0).to_bits(),
        (1.1 * PI / 4.0).to_bits(),
        ComputationKind::Quantile,
    );
    // A strong purely-vertical acceleration on an empty smoothing window
    // passes through unchanged: atan2(5, 0) = pi/2 is at or above the high
    // boundary, so the classifier latches Vertical at once.
    assert_eq!(
        pipeline_tick(&mut a, (0.0, 0.0, 5.0)),
        Some(MovementDirection::Vertical)
    );
}

#[test]
fn test_average_strategy_mean() {
    let mut a = MovementComputation::new(4, ComputationKind::Average);
    assert_eq!(a.add_measurement(1.0f32.to_bits(), 2.0f32.to_bits()), None);
    assert_eq!(a.add_measurement(2.0f32.to_bits(), 4.0f32.to_bits()), None);
    assert_eq!(a.add_measurement(3.0f32.to_bits(), 6.0f32.to_bits()), None);
    assert_eq!(mean_bits(&a.horizontal_window()), 2.0);
    assert_eq!(mean_bits(&a.vertical_window()), 4.0);
}
