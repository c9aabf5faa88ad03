use tokamak_netcdf::{Spline, SplineError, SplineType};

fn bits(values: &[f64]) -> Vec<u64> {
    values.iter().map(|v| v.to_bits()).collect()
}

fn build(x: &[f64], y: &[f64]) -> Result<Spline, SplineError> {
    Spline::build(SplineType::Linear, bits(x), bits(y))
}

#[test]
fn empty_x_is_rejected() {
    match build(&[], &[]).unwrap_err() {
        SplineError::EmptyDataset(which) => assert_eq!(which, "x"),
        other => panic!("unexpected error {:?}", other),
    }
}

#[test]
fn empty_y_is_rejected() {
    match build(&[1.0], &[]).unwrap_err() {
        SplineError::EmptyDataset(which) => assert_eq!(which, "y"),
        other => panic!("unexpected error {:?}", other),
    }
}

#[test]
fn length_mismatch_is_rejected() {
    assert!(matches!(build(&[1.0, 2.0], &[1.0, 2.0, 3.0]), Err(SplineError::DatasetMismatch)));
}

#[test]
fn unsorted_x_is_rejected() {
    assert!(matches!(build(&[2.0, 1.0, 3.0], &[1.0, 1.0, 1.0]), Err(SplineError::UnsortedDataset)));
}

#[test]
fn sorted_data_is_accepted() {
    let s = build(&[0.0, 1.0, 2.0], &[0.0, 1.0, 4.0]).unwrap();
    assert_eq!(s.spline_type, SplineType::Linear);
    assert_eq!(s.size, 3);
    assert_eq!(s.xspan, (0.0f64.to_bits(), 2.0f64.to_bits()));
    assert_eq!(s.yspan, (0.0f64.to_bits(), 4.0f64.to_bits()));
    assert_eq!(s.xdata, bits(&[0.0, 1.0, 2.0]));
    assert_eq!(s.ydata, bits(&[0.0, 1.0, 4.0]));
}

#[test]
fn repeated_x_is_accepted() {
    assert!(build(&[1.0, 1.0, 2.0], &[0.0, 1.0, 2.0]).is_ok());
}

#[test]
fn negative_values_are_ordered() {
    assert!(build(&[-3.0, -1.5, -0.0, 0.0, 2.0], &[1.0; 5]).is_ok());
    assert!(build(&[0.0, -0.0], &[1.0, 1.0]).is_ok());
    assert!(matches!(build(&[-1.0, -2.0], &[1.0, 1.0]), Err(SplineError::UnsortedDataset)));
    assert!(matches!(build(&[1.0, -1.0], &[1.0, 1.0]), Err(SplineError::UnsortedDataset)));
    assert!(build(&[f64::NEG_INFINITY, 0.0, f64::INFINITY], &[1.0; 3]).is_ok());
}

#[test]
fn nan_breaks_sortedness() {
    assert!(matches!(build(&[0.0, f64::NAN], &[1.0, 1.0]), Err(SplineError::UnsortedDataset)));
    assert!(matches!(build(&[f64::NAN, 1.0], &[1.0, 1.0]), Err(SplineError::UnsortedDataset)));
    assert!(build(&[f64::NAN], &[1.0]).is_ok());
}

#[test]
fn check_data_order_of_checks() {
    // An empty x is reported before a length mismatch.
    assert!(matches!(
        Spline::check_data(&vec![], &bits(&[1.0])),
        Err(SplineError::EmptyDataset(ref w)) if w == "x"
    ));
    // A length mismatch is reported before an unsorted x.
    assert!(matches!(
        Spline::check_data(&bits(&[2.0, 1.0]), &bits(&[1.0])),
        Err(SplineError::DatasetMismatch)
    ));
}
