use graphcalc::sampler::{
    generate_seq, sample_xs, step_size, Sample, DOMAIN_MAX, DOMAIN_MIN, STEP_SCALE,
};

#[test]
fn step_shrinks_as_scale_grows() {
    // Neutral zoom: scale factor 20 px per unit = 20000 milli-pixels,
    // step = 250000 / 20000 = 12 milli-units.
    assert_eq!(step_size(20000), 12);
    // Double zoom halves the step (up to truncation).
    assert_eq!(step_size(40000), 6);
    // A scale factor past the numerator floors the step at one milli-unit.
    assert_eq!(step_size(STEP_SCALE + 1), 1);
    assert_eq!(step_size(1), STEP_SCALE);
}

#[test]
fn sample_xs_walks_the_fixed_domain() {
    let xs = sample_xs(20000);
    let step = step_size(20000);
    assert_eq!(xs[0], DOMAIN_MIN);
    assert_eq!(xs[1], DOMAIN_MIN + step);
    for w in xs.windows(2) {
        assert_eq!(w[1] - w[0], step);
    }
    let last = *xs.last().unwrap();
    assert!(last <= DOMAIN_MAX);
    assert!(last + step > DOMAIN_MAX);
    // (50000 - (-50000)) / 12 + 1 points.
    assert_eq!(xs.len(), 8334);
}

#[test]
fn generate_seq_skips_failures_silently() {
    let xs = vec![0i64, 1, 2, 3];
    let ys = vec![Some(5i64), None, Some(7), None];
    let samples = generate_seq(&xs, &ys);
    assert_eq!(
        samples,
        vec![Sample { x: 0, y: 5 }, Sample { x: 2, y: 7 }]
    );
}

#[test]
fn generate_seq_emits_nothing_when_all_fail() {
    let xs = vec![-3i64, 0, 3];
    let ys = vec![None, None, None];
    assert_eq!(generate_seq(&xs, &ys).len(), 0);
}

#[test]
fn generate_seq_output_is_nondecreasing_in_x() {
    let xs = vec![-10i64, -5, 0, 5, 10];
    let ys = vec![Some(1i64), None, Some(2), None, Some(3)];
    let samples = generate_seq(&xs, &ys);
    for w in samples.windows(2) {
        assert!(w[0].x < w[1].x);
    }
    assert_eq!(samples.len(), 3);
}

#[test]
fn scenario_identity_function_sampled_exactly() {
    // A function that evaluates to its own argument over the whole domain:
    // every emitted sample satisfies y == x exactly.
    let xs = sample_xs(20000);
    let ys: Vec<Option<i64>> = xs.iter().map(|&x| Some(x)).collect();
    let samples = generate_seq(&xs, &ys);
    assert_eq!(samples.len(), xs.len());
    for s in &samples {
        assert_eq!(s.y, s.x);
    }
    assert_eq!(samples[0], Sample { x: DOMAIN_MIN, y: DOMAIN_MIN });
}
