use filter::common::{convolve, roll, shift, shift_extend, ConvolutionMode, ShiftMode};

fn assert_close(expected: f64, actual: f64) {
    assert!((expected - actual).abs() < 1e-6, "expected {}, got {}", expected, actual);
}

#[test]
fn test_convolve_extended() {
    let a = &[1.0, 2.0, 3.0, 4.0, 5.0, 6.0, 7.0, 8.0, 9.0];
    let b = &[0.0, 1.0, 0.5];

    let result = convolve(a, b, ConvolutionMode::Extended(100.0));

    let reference = [51.0, 2.5, 4.0, 5.5, 7.0, 8.5, 10.0, 11.5, 13.0];
    assert_eq!(reference.len(), result.len());
    for i in 0..reference.len() {
        assert_close(reference[i], result[i]);
    }
}

#[test]
fn test_convolve_extended2() {
    let a = &[1.0, 2.0, 3.0, 4.0, 5.0, 6.0, 7.0, 8.0, 9.0];
    let b = &[0.0, 1.0, 0.5, 10.0];

    let result = convolve(a, b, ConvolutionMode::Extended(100.0));

    let reference = [1002.5, 14., 25.5, 37., 48.5, 60., 71.5, 83., 184.5];
    assert_eq!(reference.len(), result.len());
    for i in 0..reference.len() {
        assert_close(reference[i], result[i]);
    }
}

#[test]
fn convolve_takes_the_longer_argument_as_signal() {
    let a = &[1.0, 2.0, 3.0];
    let b = &[0.0, 1.0, 0.0, 0.0, 0.0];
    let result = convolve(a, b, ConvolutionMode::Extended(0.0));
    assert_eq!(result.len(), 5);
    let swapped = convolve(b, a, ConvolutionMode::Extended(0.0));
    assert_eq!(result, swapped);
}

#[test]
fn convolve_wrap_with_identity_kernel() {
    let a = &[1.0, 2.0, 3.0, 4.0];
    let result = convolve(a, &[0.0, 1.0, 0.0], ConvolutionMode::Wrap);
    assert_eq!(result, vec![1.0, 2.0, 3.0, 4.0]);
    let spread = convolve(a, &[1.0, 0.0, 0.0], ConvolutionMode::Wrap);
    assert_eq!(spread, vec![2.0, 3.0, 4.0, 1.0]);
}

#[test]
fn convolve_of_empty_inputs() {
    let empty: [f64; 0] = [];
    assert!(convolve(&empty, &empty, ConvolutionMode::Wrap).is_empty());
    assert_eq!(convolve(&[2.0], &empty, ConvolutionMode::Wrap), vec![0.0]);
}

#[test]
fn test_roll() {
    let a = [0, 1, 2, 3, 4, 5, 6, 7, 8, 9];

    let c = roll(&a, 2);

    assert_eq!(10, c.len());
    assert_eq!(8, c[0]);
    assert_eq!(9, c[1]);
    assert_eq!(0, c[2]);
    assert_eq!(1, c[3]);
    assert_eq!(2, c[4]);
    assert_eq!(3, c[5]);
    assert_eq!(4, c[6]);
    assert_eq!(5, c[7]);
    assert_eq!(6, c[8]);
    assert_eq!(7, c[9]);
}

#[test]
fn test_roll_negative() {
    let a = [0, 1, 2, 3, 4, 5, 6, 7, 8, 9];

    let c = roll(&a, -2);

    assert_eq!(10, c.len());
    assert_eq!(2, c[0]);
    assert_eq!(3, c[1]);
    assert_eq!(4, c[2]);
    assert_eq!(5, c[3]);
    assert_eq!(6, c[4]);
    assert_eq!(7, c[5]);
    assert_eq!(8, c[6]);
    assert_eq!(9, c[7]);
    assert_eq!(0, c[8]);
    assert_eq!(1, c[9]);
}

#[test]
fn roll_by_more_than_the_length() {
    let a = [0, 1, 2, 3, 4];
    assert_eq!(roll(&a, 7), vec![3, 4, 0, 1, 2]);
    assert_eq!(roll(&a, -12), vec![2, 3, 4, 0, 1]);
    assert_eq!(roll(&a, 5), a.to_vec());
    assert_eq!(roll(&a, i64::MIN), roll(&a, 2));
    assert_eq!(roll(&a, i64::MAX), roll(&a, 2));
    let empty: [i32; 0] = [];
    assert!(roll(&empty, 3).is_empty());
}

#[test]
fn test_shift_extend() {
    let a = [0, 1, 2, 3, 4, 5, 6, 7, 8, 9];

    let c = shift_extend(&a, 2, 100);

    assert_eq!(10, c.len());
    assert_eq!(100, c[0]);
    assert_eq!(100, c[1]);
    assert_eq!(0, c[2]);
    assert_eq!(1, c[3]);
    assert_eq!(2, c[4]);
    assert_eq!(3, c[5]);
    assert_eq!(4, c[6]);
    assert_eq!(5, c[7]);
    assert_eq!(6, c[8]);
    assert_eq!(7, c[9]);

    let a = [0, 1, 2, 3, 4, 5, 6, 7, 8, 9];

    let c = shift_extend(&a, -2, 100);

    assert_eq!(10, c.len());
    assert_eq!(2, c[0]);
    assert_eq!(3, c[1]);
    assert_eq!(4, c[2]);
    assert_eq!(5, c[3]);
    assert_eq!(6, c[4]);
    assert_eq!(7, c[5]);
    assert_eq!(8, c[6]);
    assert_eq!(9, c[7]);
    assert_eq!(100, c[8]);
    assert_eq!(100, c[9]);
}

#[test]
fn shift_extend_past_the_end() {
    let a = [1, 2, 3];
    assert_eq!(shift_extend(&a, 3, 0), vec![0, 0, 0]);
    assert_eq!(shift_extend(&a, -5, 9), vec![9, 9, 9]);
    assert_eq!(shift_extend(&a, i64::MIN, 9), vec![9, 9, 9]);
}

#[test]
fn shift_dispatches_on_mode() {
    let a = [1, 2, 3, 4];
    assert_eq!(shift(&a, 1, ShiftMode::Wrap), vec![4, 1, 2, 3]);
    assert_eq!(shift(&a, 1, ShiftMode::Extend(0)), vec![0, 1, 2, 3]);
}
