use eq_grapher::bounds::{axis_bounds, AxisBounds};
use eq_grapher::error::PipelineError;
use eq_grapher::interval::{DomainInterval, MAX_SAMPLES};
use eq_grapher::sampler::Sampler;

fn bits(v: f64) -> u64 {
    v.to_bits()
}

fn bounds(ys: &[f64], start: i64, end: i64) -> AxisBounds {
    let points: Vec<(i64, u64)> =
        ys.iter().enumerate().map(|(i, y)| (start + i as i64, bits(*y))).collect();
    axis_bounds(&points, DomainInterval { start, end })
}

#[test]
fn sampler_asks_for_each_integer_in_ascending_order() {
    let mut sampler = Sampler::new(DomainInterval { start: -2, end: 2 }).ok().unwrap();
    let mut asked = Vec::new();
    while let Some(x) = sampler.next_x() {
        asked.push(x);
        sampler = sampler.accept(bits((x * x) as f64)).ok().unwrap();
    }
    assert_eq!(asked, vec![-2, -1, 0, 1, 2]);
    let (interval, points) = sampler.finish();
    assert_eq!(interval, DomainInterval { start: -2, end: 2 });
    assert_eq!(
        points,
        vec![(-2, bits(4.0)), (-1, bits(1.0)), (0, bits(0.0)), (1, bits(1.0)), (2, bits(4.0))]
    );
}

#[test]
fn sampler_output_has_one_point_per_integer() {
    for (start, end) in [(0i64, 0i64), (0, 3), (-7, 12), (100, 163), (-1000, -1), (i64::MAX - 5, i64::MAX), (i64::MIN, i64::MIN + 9)] {
        let mut sampler = Sampler::new(DomainInterval { start, end }).ok().unwrap();
        while let Some(x) = sampler.next_x() {
            sampler = sampler.accept(bits(x as f64)).ok().unwrap();
        }
        let (_, points) = sampler.finish();
        assert_eq!(points.len() as i128, end as i128 - start as i128 + 1);
        assert_eq!(points.first().unwrap().0, start);
        assert_eq!(points.last().unwrap().0, end);
        for pair in points.windows(2) {
            assert!(pair[0].0 < pair[1].0);
            assert_eq!(pair[0].0 + 1, pair[1].0);
        }
    }
}

#[test]
fn sampler_over_an_empty_domain_wants_nothing() {
    let sampler = Sampler::new(DomainInterval { start: 1, end: 0 }).ok().unwrap();
    assert_eq!(sampler.next_x(), None);
    let sampler = sampler.accept(bits(1.0)).ok().unwrap();
    let (interval, points) = sampler.finish();
    assert_eq!(interval, DomainInterval { start: 1, end: 0 });
    assert!(points.is_empty());
}

#[test]
fn sampler_refuses_values_that_are_not_finite() {
    for bad in [f64::NAN, f64::INFINITY, f64::NEG_INFINITY] {
        let sampler = Sampler::new(DomainInterval { start: -1, end: 1 }).ok().unwrap();
        let sampler = sampler.accept(bits(-1.0)).ok().unwrap();
        assert_eq!(sampler.next_x(), Some(0));
        assert_eq!(sampler.accept(bits(bad)).err(), Some(PipelineError::EvaluationError));
    }
}

#[test]
fn sampler_ignores_values_once_complete() {
    let sampler = Sampler::new(DomainInterval { start: 4, end: 4 }).ok().unwrap();
    let sampler = sampler.accept(bits(8.0)).ok().unwrap();
    assert_eq!(sampler.next_x(), None);
    let sampler = sampler.accept(bits(f64::NAN)).ok().unwrap();
    let sampler = sampler.accept(bits(9.0)).ok().unwrap();
    let (_, points) = sampler.finish();
    assert_eq!(points, vec![(4, bits(8.0))]);
}

#[test]
fn sampler_refuses_domains_beyond_the_limit() {
    assert!(Sampler::new(DomainInterval { start: 1, end: MAX_SAMPLES as i64 }).is_ok());
    assert_eq!(
        Sampler::new(DomainInterval { start: 0, end: MAX_SAMPLES as i64 }).err(),
        Some(PipelineError::DomainTooLargeError)
    );
    assert_eq!(
        Sampler::new(DomainInterval { start: i64::MIN, end: i64::MAX }).err(),
        Some(PipelineError::DomainTooLargeError)
    );
    assert!(Sampler::new(DomainInterval { start: i64::MAX, end: i64::MIN }).is_ok());
}

#[test]
fn sampler_can_be_finished_early() {
    let sampler = Sampler::new(DomainInterval { start: 0, end: 9 }).ok().unwrap();
    let sampler = sampler.accept(bits(1.5)).ok().unwrap();
    let sampler = sampler.accept(bits(2.5)).ok().unwrap();
    let (_, points) = sampler.finish();
    assert_eq!(points, vec![(0, bits(1.5)), (1, bits(2.5))]);
}

#[test]
fn bounds_of_no_points_are_zero() {
    let b = bounds(&[], 3, 0);
    assert_eq!(b, AxisBounds { x_min: 3, x_max: 0, y_min: 0, y_max: 0 });
    assert_eq!(f64::from_bits(b.y_min), 0.0);
    assert_eq!(f64::from_bits(b.y_max), 0.0);
}

#[test]
fn horizontal_bounds_are_the_ends_of_the_domain() {
    let b = bounds(&[1.0, 2.0], -5, 7);
    assert_eq!((b.x_min, b.x_max), (-5, 7));
    let b = bounds(&[f64::NAN, f64::INFINITY], 10, 11);
    assert_eq!((b.x_min, b.x_max), (10, 11));
    let b = bounds(&[], i64::MIN, i64::MAX);
    assert_eq!((b.x_min, b.x_max), (i64::MIN, i64::MAX));
}

#[test]
fn vertical_bounds_are_least_and_greatest_value() {
    let b = bounds(&[3.0, -1.5, 7.25, 0.0, -8.0, 7.0], 0, 5);
    assert_eq!(f64::from_bits(b.y_min), -8.0);
    assert_eq!(f64::from_bits(b.y_max), 7.25);
    let b = bounds(&[4.0, 1.0, 0.0, 1.0, 4.0], -2, 2);
    assert_eq!((f64::from_bits(b.y_min), f64::from_bits(b.y_max)), (0.0, 4.0));
    let b = bounds(&[-3.0, -2.0, -1.0], 0, 2);
    assert_eq!((f64::from_bits(b.y_min), f64::from_bits(b.y_max)), (-3.0, -1.0));
    let b = bounds(&[1e-310, 1e-320, 1e-300], 0, 2);
    assert_eq!((f64::from_bits(b.y_min), f64::from_bits(b.y_max)), (1e-320, 1e-300));
}

#[test]
fn vertical_bounds_enclose_every_value() {
    let ys = [0.5, -0.25, 1e10, -1e-10, 3.0, 3.0, -7.5, 2.0, f64::MAX, f64::MIN_POSITIVE];
    let b = bounds(&ys, 0, 9);
    for y in ys {
        assert!(f64::from_bits(b.y_min) <= y);
        assert!(y <= f64::from_bits(b.y_max));
    }
    assert!(ys.contains(&f64::from_bits(b.y_min)));
    assert!(ys.contains(&f64::from_bits(b.y_max)));
}

#[test]
fn among_equal_values_the_first_is_the_minimum_and_the_last_the_maximum() {
    let b = bounds(&[0.0, -0.0], 0, 1);
    assert_eq!(b.y_min, bits(0.0));
    assert_eq!(b.y_max, bits(-0.0));
    let b = bounds(&[-0.0, 0.0], 0, 1);
    assert_eq!(b.y_min, bits(-0.0));
    assert_eq!(b.y_max, bits(0.0));
    let b = bounds(&[1.0, -0.0, 0.0, -0.0, 1.0], 0, 4);
    assert_eq!(b.y_min, bits(-0.0));
    assert_eq!(b.y_max, bits(1.0));
}

#[test]
fn bounds_agree_with_the_standard_library_on_finite_values() {
    let mut state: u64 = 0x1234_5678_9abc_def1;
    for round in 0..200 {
        let mut ys = Vec::new();
        for _ in 0..(1 + round % 17) {
            state = state.wrapping_mul(6364136223846793005).wrapping_add(1442695040888963407);
            let y = f64::from_bits(state);
            if y.is_finite() {
                ys.push(y);
            } else {
                ys.push((state >> 40) as f64 - 8000000.0);
            }
        }
        let b = bounds(&ys, 0, ys.len() as i64 - 1);
        let least = ys.iter().min_by(|a, b| a.partial_cmp(b).unwrap()).unwrap();
        let greatest = ys.iter().max_by(|a, b| a.partial_cmp(b).unwrap()).unwrap();
        assert_eq!(b.y_min, least.to_bits());
        assert_eq!(b.y_max, greatest.to_bits());
    }
}
