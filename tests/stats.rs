use filter::stats::GaussianDistribution;

fn assert_close(expected: f64, actual: f64) {
    assert!((expected - actual).abs() < 1e-9, "expected {}, got {}", expected, actual);
}

#[test]
fn gaussian_sum_adds_means_and_variances() {
    let s = GaussianDistribution::new(1.0, 2.0) + GaussianDistribution::new(3.0, 4.0);
    assert_close(4.0, s.mean);
    assert_close(6.0, s.var);
}

#[test]
fn gaussian_product_weights_means() {
    let p = GaussianDistribution::new(1.0, 2.0) * GaussianDistribution::new(3.0, 4.0);
    assert_close(10.0 / 6.0, p.mean);
    assert_close(4.0 / 3.0, p.var);
}
