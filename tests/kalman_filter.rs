use filter::kalman::kalman_filter::{resolve, resolve_optional, KalmanError, KalmanFilter};
use filter::matrix::Mat;

fn entries(m: &Mat<f64>) -> Vec<f64> {
    let mut out = Vec::new();
    for i in 0..m.nrows() {
        for j in 0..m.ncols() {
            out.push(m.get(i, j));
        }
    }
    out
}

fn scalar(v: f64) -> Mat<f64> {
    Mat::from_row_slice(1, 1, &[v])
}

fn reference_filter() -> KalmanFilter<f64> {
    let mut kf: KalmanFilter<f64> = KalmanFilter::new(2, 1, 1);
    kf.x = Mat::from_row_slice(2, 1, &[2.0, 0.0]);
    kf.F = Mat::from_row_slice(2, 2, &[1.0, 1.0, 0.0, 1.0]);
    kf.H = Mat::from_row_slice(1, 2, &[1.0, 0.0]);
    kf.P = kf.P.scaled(1000.0);
    kf.R = scalar(5.0);
    kf.Q = Mat::from_element(2, 2, 0.0001);
    kf
}

fn scalar_filter() -> KalmanFilter<f64> {
    let mut kf: KalmanFilter<f64> = KalmanFilter::new(1, 1, 1);
    kf.x = scalar(1.0);
    kf.P = scalar(1.0);
    kf.F = scalar(1.0);
    kf.H = scalar(1.0);
    kf.Q = scalar(0.0);
    kf.R = scalar(1.0);
    kf
}

#[test]
fn test_univariate_kf_setup() {
    let mut kf: KalmanFilter<f32> = KalmanFilter::<f32>::new(1, 1, 1);

    for i in 0..1000 {
        let zf = i as f32;
        let z = Mat::from_row_slice(1, 1, &[zf]);
        kf.predict(None, None, None, None);
        kf.update(&z, None, None).unwrap();
        assert!((zf - kf.z.as_ref().unwrap().get(0, 0)).abs() < 1e-6);
    }
}

#[test]
fn test_1d_reference() {
    let mut kf = reference_filter();

    for t in 0..100 {
        let z = scalar(t as f64);
        kf.update(&z, None, None).unwrap();
        kf.predict(None, None, None, None);
        let expected = if t == 0 { 0.0099502487 } else { t as f64 + 1.0 };
        assert!((kf.x.get(0, 0) - expected).abs() < 0.05);
    }
}

#[test]
fn new_has_the_documented_defaults() {
    let kf: KalmanFilter<f64> = KalmanFilter::new(2, 1, 3);
    assert_eq!(entries(&kf.x), vec![1.0, 1.0]);
    assert_eq!(entries(&kf.P), vec![1.0, 0.0, 0.0, 1.0]);
    assert_eq!(entries(&kf.Q), vec![1.0, 0.0, 0.0, 1.0]);
    assert_eq!(entries(&kf.F), vec![1.0, 0.0, 0.0, 1.0]);
    assert_eq!(entries(&kf.H), vec![0.0, 0.0]);
    assert_eq!(entries(&kf.R), vec![1.0]);
    assert_eq!(kf.alpha_sq, 1.0);
    assert!(kf.B.is_none());
    assert!(kf.z.is_none());
    assert_eq!((kf.dim_x, kf.dim_z, kf.dim_u), (2, 1, 3));
    assert_eq!(entries(&kf.x_prior), entries(&kf.x));
    assert_eq!(entries(&kf.P_post), entries(&kf.P));
}

#[test]
fn scalar_step_matches_hand_computation() {
    let mut kf = scalar_filter();
    kf.predict(None, None, None, None);
    assert_eq!(entries(&kf.x), vec![1.0]);
    assert_eq!(entries(&kf.P), vec![1.0]);
    kf.update(&scalar(5.0), None, None).unwrap();
    // K = P / (P + R) = 0.5
    assert_eq!(entries(&kf.K), vec![0.5]);
    assert_eq!(entries(&kf.S), vec![2.0]);
    assert_eq!(entries(&kf.SI), vec![0.5]);
    assert_eq!(entries(&kf.y), vec![4.0]);
    assert_eq!(entries(&kf.x), vec![3.0]);
    assert_eq!(entries(&kf.P), vec![0.5]);
    assert_eq!(entries(&kf.x_post), vec![3.0]);
    assert_eq!(entries(&kf.P_post), vec![0.5]);
    assert_eq!(entries(&kf.x_prior), vec![1.0]);
    assert_eq!(entries(kf.z.as_ref().unwrap()), vec![5.0]);
}

#[test]
fn predict_with_control_and_fading() {
    let mut kf = scalar_filter();
    kf.alpha_sq = 2.0;
    kf.Q = scalar(0.5);
    kf.B = Some(scalar(3.0));
    kf.predict(Some(&scalar(2.0)), None, None, None);
    // x = 1 + 3 * 2, P = 2 * 1 + 0.5
    assert_eq!(entries(&kf.x), vec![7.0]);
    assert_eq!(entries(&kf.P), vec![2.5]);
    assert_eq!(entries(&kf.x_prior), vec![7.0]);
    assert_eq!(entries(&kf.P_prior), vec![2.5]);
    // an override replaces the stored matrix for this call only
    kf.predict(Some(&scalar(1.0)), Some(&scalar(-1.0)), Some(&scalar(2.0)), Some(&scalar(0.0)));
    assert_eq!(entries(&kf.x), vec![13.0]);
    assert_eq!(entries(&kf.P), vec![20.0]);
    assert_eq!(entries(kf.B.as_ref().unwrap()), vec![3.0]);
    assert_eq!(entries(&kf.F), vec![1.0]);
    // without an input no control is applied
    kf.predict(None, None, None, None);
    assert_eq!(entries(&kf.x), vec![13.0]);
}

#[test]
fn update_with_overrides() {
    let mut kf = scalar_filter();
    kf.update(&scalar(4.0), Some(&scalar(3.0)), Some(&scalar(2.0))).unwrap();
    // S = 2 * 1 * 2 + 3 = 7, K = 2 / 7, y = 4 - 2 = 2
    assert!((kf.K.get(0, 0) - 2.0 / 7.0).abs() < 1e-12);
    assert!((kf.x.get(0, 0) - (1.0 + 4.0 / 7.0)).abs() < 1e-12);
    assert_eq!(entries(&kf.R), vec![1.0]);
    assert_eq!(entries(&kf.H), vec![1.0]);
}

#[test]
fn singular_update_leaves_filter_unchanged() {
    let mut kf = scalar_filter();
    kf.predict(None, None, None, None);
    kf.R = scalar(0.0);
    kf.H = scalar(0.0);
    let x = entries(&kf.x);
    let p = entries(&kf.P);
    let x_post = entries(&kf.x_post);
    let p_post = entries(&kf.P_post);
    let k = entries(&kf.K);
    assert_eq!(kf.update(&scalar(5.0), None, None), Err(KalmanError::SingularMatrix));
    assert_eq!(entries(&kf.x), x);
    assert_eq!(entries(&kf.P), p);
    assert_eq!(entries(&kf.x_post), x_post);
    assert_eq!(entries(&kf.P_post), p_post);
    assert_eq!(entries(&kf.K), k);
    assert!(kf.z.is_none());
    assert_eq!(kf.get_update(&scalar(5.0)).err(), Some(KalmanError::SingularMatrix));
}

#[test]
fn queries_do_not_change_the_filter() {
    let mut kf = reference_filter();
    kf.update(&scalar(1.0), None, None).unwrap();
    kf.predict(None, None, None, None);
    let before: Vec<Vec<f64>> = vec![
        entries(&kf.x), entries(&kf.P), entries(&kf.x_prior), entries(&kf.P_prior),
        entries(&kf.x_post), entries(&kf.P_post), entries(&kf.y), entries(&kf.K),
        entries(&kf.S), entries(&kf.SI),
    ];
    for _ in 0..3 {
        let (px, pp) = kf.get_prediction(None);
        let (ux, up) = kf.get_update(&scalar(3.0)).unwrap();
        let r = kf.residual_of(&scalar(3.0));
        let m = kf.measurement_of_state(&kf.x);
        assert_eq!((px.nrows(), pp.nrows(), ux.nrows(), up.ncols()), (2, 2, 2, 2));
        assert_eq!((r.nrows(), m.nrows()), (1, 1));
    }
    let after: Vec<Vec<f64>> = vec![
        entries(&kf.x), entries(&kf.P), entries(&kf.x_prior), entries(&kf.P_prior),
        entries(&kf.x_post), entries(&kf.P_post), entries(&kf.y), entries(&kf.K),
        entries(&kf.S), entries(&kf.SI),
    ];
    assert_eq!(before, after);
}

#[test]
fn queries_match_the_mutating_operators() {
    let mut kf = reference_filter();
    kf.update(&scalar(1.0), None, None).unwrap();
    let (px, pp) = kf.get_prediction(None);
    kf.predict(None, None, None, None);
    assert_eq!(entries(&px), entries(&kf.x));
    assert_eq!(entries(&pp), entries(&kf.P));
    let (ux, up) = kf.get_update(&scalar(2.5)).unwrap();
    let residual = kf.residual_of(&scalar(2.5));
    kf.update(&scalar(2.5), None, None).unwrap();
    assert_eq!(entries(&ux), entries(&kf.x));
    assert_eq!(entries(&up), entries(&kf.P));
    assert_eq!(entries(&residual), entries(&kf.y));
    let m = kf.measurement_of_state(&kf.x);
    assert_eq!(entries(&m), vec![kf.x.get(0, 0)]);
}

#[test]
fn covariance_stays_symmetric() {
    let mut kf = reference_filter();
    for t in 0..100 {
        kf.predict(None, None, None, None);
        assert!((kf.P.get(0, 1) - kf.P.get(1, 0)).abs() < 1e-6);
        kf.update(&scalar(t as f64 * 0.5 + 1.0), None, None).unwrap();
        assert!((kf.P.get(0, 1) - kf.P.get(1, 0)).abs() < 1e-6);
    }
}

#[test]
fn steady_state_matches_full_update_after_convergence() {
    let mut full = reference_filter();
    let mut steady = reference_filter();
    for t in 0..60 {
        let z = scalar(t as f64);
        full.update(&z, None, None).unwrap();
        full.predict(None, None, None, None);
        steady.update(&z, None, None).unwrap();
        steady.predict(None, None, None, None);
    }
    for t in 60..80 {
        let z = scalar(t as f64);
        full.update(&z, None, None).unwrap();
        steady.update_steadystate(&z);
        assert!((full.x.get(0, 0) - steady.x.get(0, 0)).abs() < 0.05);
        assert!((full.x.get(1, 0) - steady.x.get(1, 0)).abs() < 0.05);
        full.predict(None, None, None, None);
        steady.predict_steadystate(None, None);
    }
}

#[test]
fn steady_state_keeps_covariance_and_gain() {
    let mut kf = scalar_filter();
    kf.update(&scalar(5.0), None, None).unwrap();
    let p = entries(&kf.P);
    let k = entries(&kf.K);
    kf.predict_steadystate(None, None);
    assert_eq!(entries(&kf.P), p);
    assert_eq!(entries(&kf.P_prior), p);
    kf.update_steadystate(&scalar(7.0));
    assert_eq!(entries(&kf.K), k);
    assert_eq!(entries(&kf.P), p);
    // x = 3 + 0.5 * (7 - 3)
    assert_eq!(entries(&kf.x), vec![5.0]);
    assert_eq!(entries(&kf.x_post), vec![5.0]);
    assert_eq!(entries(kf.z.as_ref().unwrap()), vec![7.0]);
}

#[test]
fn overrides_take_precedence_over_stored_matrices() {
    let stored = 1;
    let given = 2;
    assert_eq!(*resolve(Some(&given), &stored), 2);
    assert_eq!(*resolve(None, &stored), 1);
    assert_eq!(resolve_optional(Some(&given), &Some(1)), Some(&2));
    assert_eq!(resolve_optional(None, &Some(1)), Some(&1));
    assert_eq!(resolve_optional::<i32>(None, &None), None);
}

#[test]
fn correction_fails_exactly_without_an_inverse() {
    let x = scalar(1.0);
    let p = scalar(1.0);
    let r = scalar(1.0);
    let h = scalar(1.0);
    let y = scalar(4.0);
    let pht = scalar(1.0);
    let failed = KalmanFilter::corrected(&x, &p, &r, &h, &y, &pht, None);
    assert_eq!(failed.err(), Some(KalmanError::SingularMatrix));
    let (x2, p2, k, si) = KalmanFilter::corrected(&x, &p, &r, &h, &y, &pht, Some(scalar(0.5)))
        .ok()
        .unwrap();
    assert_eq!(entries(&k), vec![0.5]);
    assert_eq!(entries(&x2), vec![3.0]);
    assert_eq!(entries(&p2), vec![0.5]);
    assert_eq!(entries(&si), vec![0.5]);
}

#[test]
fn matrix_operations_and_shapes() {
    let a = Mat::from_row_slice(2, 3, &[1.0, 2.0, 3.0, 4.0, 5.0, 6.0]);
    let t = a.transposed();
    assert_eq!((t.nrows(), t.ncols()), (3, 2));
    assert_eq!(entries(&t), vec![1.0, 4.0, 2.0, 5.0, 3.0, 6.0]);
    let p = a.product(&t);
    assert_eq!(entries(&p), vec![14.0, 32.0, 32.0, 77.0]);
    assert_eq!(entries(&a.sum(&a)), entries(&a.scaled(2.0)));
    assert_eq!(entries(&a.difference(&a)), vec![0.0; 6]);
    assert_eq!(entries(&Mat::<f64>::identity(2)), vec![1.0, 0.0, 0.0, 1.0]);
    assert_eq!(entries(&Mat::<f64>::zeros(1, 2)), vec![0.0, 0.0]);
    let inv = Mat::from_row_slice(2, 2, &[2.0, 0.0, 0.0, 4.0]).try_inverse().unwrap();
    assert_eq!(entries(&inv), vec![0.5, 0.0, 0.0, 0.25]);
    assert!(Mat::from_row_slice(2, 2, &[1.0, 2.0, 2.0, 4.0]).try_inverse().is_none());
    assert_eq!(entries(&a.duplicate()), entries(&a));
}
