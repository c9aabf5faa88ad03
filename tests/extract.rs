use tokamak_netcdf::{
    check_if_empty, extract_1d_var, extract_2d_var, extract_scalar, extract_var_with_axis_value,
    extract_var_with_first_axis_value, extract_variable, with_first_axis_value,
    with_given_axis_value, NcError, Store, Variable,
};

const VAR_LENGTH: usize = 5;

/// A store with a 1-D variable, an empty one and a 2-D one.
fn phony_store() -> Store<f64> {
    let mut s = Store::new();
    s.add(Variable::new("var".to_owned(), vec![VAR_LENGTH], vec![0.0; VAR_LENGTH]));
    s.add(Variable::new("empty_var".to_owned(), vec![0], vec![]));
    s.add(Variable::new(
        "2dvar".to_owned(),
        vec![VAR_LENGTH, VAR_LENGTH],
        vec![0.0; VAR_LENGTH * VAR_LENGTH],
    ));
    s
}

fn names(e: &NcError) -> &str {
    match e {
        NcError::VariableNotFound(n)
        | NcError::EmptyVariable(n)
        | NcError::NotScalar(n)
        | NcError::Not1D(n)
        | NcError::Not2D(n)
        | NcError::FileNotFound(n) => n,
        NcError::GetValuesError { name, .. } => name,
        NcError::LibraryError { reason, .. } => reason,
    }
}

#[test]
fn test_extract_variable() {
    let f = phony_store();
    assert!(extract_variable(&f, "var").is_ok());
    assert!(matches!(
        extract_variable(&f, "not_a_var").unwrap_err(),
        NcError::VariableNotFound(_)
    ));
}

#[test]
fn test_check_if_empty() {
    let f = phony_store();
    let var = extract_variable(&f, "var").unwrap();
    let empty_var = extract_variable(&f, "empty_var").unwrap();

    assert_eq!(var.len(), VAR_LENGTH);
    assert_eq!(empty_var.len(), 0);
    assert!(matches!(
        check_if_empty(empty_var).unwrap_err(),
        NcError::EmptyVariable(_)
    ));
}

#[test]
fn test_extract_scalar() {}

#[test]
fn test_extract_1d_var() {
    let f = phony_store();
    let values1d = extract_1d_var::<f64>(&f, "var");
    let values2d = extract_1d_var::<f64>(&f, "2dvar");
    let empty_values = extract_1d_var::<f64>(&f, "empty_var");
    let err_values = extract_1d_var::<f64>(&f, "not_a_var");

    assert!(values1d.is_ok());
    assert!(matches!(values2d.unwrap_err(), NcError::Not1D(_)));
    assert!(matches!(empty_values.unwrap_err(), NcError::EmptyVariable(_)));
    assert!(matches!(err_values.unwrap_err(), NcError::VariableNotFound(_)));
}

#[test]
fn test_ectract_2d_var() {
    let f = phony_store();
    let values2d = extract_2d_var::<f64>(&f, "2dvar");
    let values1d = extract_2d_var::<f64>(&f, "var");
    let empty_values = extract_2d_var::<f64>(&f, "empty_var");
    let err_values = extract_2d_var::<f64>(&f, "not_a_var");

    assert!(values2d.is_ok());
    assert!(matches!(values1d.unwrap_err(), NcError::Not2D(_)));
    assert!(matches!(empty_values.unwrap_err(), NcError::EmptyVariable(_)));
    assert!(matches!(err_values.unwrap_err(), NcError::VariableNotFound(_)));
}

#[test]
fn test_axis_value() {
    let mut f: Store<i32> = Store::new();
    f.add(Variable::new("int_var".to_owned(), vec![VAR_LENGTH], vec![2, 3, 4, 5, 6]));

    assert_eq!(
        vec![1, 2, 3, 4, 5, 6],
        extract_var_with_axis_value(&f, "int_var", 1).unwrap()
    );
    assert_eq!(
        vec![2, 2, 3, 4, 5, 6],
        extract_var_with_first_axis_value(&f, "int_var").unwrap()
    );
}

#[test]
fn scalar_read_from_rank_zero_variable() {
    let mut f: Store<f64> = Store::new();
    f.add(Variable::new("Baxis".to_owned(), vec![], vec![1.5]));
    assert_eq!(extract_scalar(&f, "Baxis").unwrap(), 1.5);
    assert_eq!(extract_variable(&f, "Baxis").unwrap().len(), 1);
}

#[test]
fn wrong_rank_error_names_the_variable() {
    let f = phony_store();
    let e = extract_scalar(&f, "var").unwrap_err();
    assert!(matches!(e, NcError::NotScalar(_)));
    assert_eq!(names(&e), "var");
    let e = extract_1d_var(&f, "2dvar").unwrap_err();
    assert!(matches!(e, NcError::Not1D(_)));
    assert_eq!(names(&e), "2dvar");
    let e = extract_2d_var(&f, "var").unwrap_err();
    assert!(matches!(e, NcError::Not2D(_)));
    assert_eq!(names(&e), "var");
}

#[test]
fn empty_variable_for_every_rank() {
    let f = phony_store();
    let errors = [
        extract_scalar(&f, "empty_var").unwrap_err(),
        extract_1d_var(&f, "empty_var").unwrap_err(),
        extract_2d_var(&f, "empty_var").unwrap_err(),
    ];
    for e in errors.iter() {
        assert!(matches!(e, NcError::EmptyVariable(_)));
        assert_eq!(names(e), "empty_var");
    }
}

#[test]
fn empty_reported_before_rank() {
    let mut f: Store<f64> = Store::new();
    f.add(Variable::new("flat".to_owned(), vec![3, 0], vec![]));
    assert!(matches!(extract_1d_var(&f, "flat").unwrap_err(), NcError::EmptyVariable(_)));
    assert!(matches!(extract_scalar(&f, "flat").unwrap_err(), NcError::EmptyVariable(_)));
}

#[test]
fn unreadable_values_give_get_values_error() {
    let mut f: Store<f64> = Store::new();
    f.add(Variable::unreadable("text".to_owned(), vec![4], "not numeric".to_owned()));
    f.add(Variable::unreadable("scalar_text".to_owned(), vec![], "bad".to_owned()));
    match extract_1d_var(&f, "text").unwrap_err() {
        NcError::GetValuesError { source, name } => {
            assert_eq!(source, "not numeric");
            assert_eq!(name, "text");
        }
        other => panic!("unexpected error {:?}", other),
    }
    assert!(matches!(extract_2d_var(&f, "text").unwrap_err(), NcError::Not2D(_)));
    assert!(matches!(
        extract_scalar(&f, "scalar_text").unwrap_err(),
        NcError::GetValuesError { .. }
    ));
}

#[test]
fn unreadable_variable_length_is_product_of_extents() {
    let a: Variable<f64> = Variable::unreadable("a".to_owned(), vec![2, 3, 4], String::new());
    let b: Variable<f64> = Variable::unreadable("b".to_owned(), vec![2, 0, 4], String::new());
    let c: Variable<f64> = Variable::unreadable("c".to_owned(), vec![], String::new());
    assert_eq!(a.len(), 24);
    assert_eq!(a.rank(), 3);
    assert_eq!(b.len(), 0);
    assert_eq!(c.len(), 1);
    assert_eq!(c.rank(), 0);
}

#[test]
fn two_dimensional_shape_and_order() {
    let mut f: Store<i32> = Store::new();
    f.add(Variable::new("m".to_owned(), vec![2, 3], vec![1, 2, 3, 4, 5, 6]));
    let (shape, values) = extract_2d_var(&f, "m").unwrap();
    assert_eq!(shape, (2, 3));
    assert_eq!(values, vec![1, 2, 3, 4, 5, 6]);
}

#[test]
fn first_variable_of_a_name_is_used() {
    let mut f: Store<i32> = Store::new();
    f.add(Variable::new("v".to_owned(), vec![1], vec![7]));
    f.add(Variable::new("v".to_owned(), vec![2], vec![8, 9]));
    assert_eq!(extract_1d_var(&f, "v").unwrap(), vec![7]);
    assert_eq!(f.find("v"), Some(0));
    assert_eq!(f.num_vars(), 2);
    assert_eq!(f.find("w"), None);
}

#[test]
fn axis_value_prepending() {
    assert_eq!(with_given_axis_value(&vec![4, 5], 0), vec![0, 4, 5]);
    assert_eq!(with_first_axis_value(&vec![4, 5]), vec![4, 4, 5]);
    assert_eq!(with_given_axis_value(&Vec::<i32>::new(), 9), vec![9]);
}
