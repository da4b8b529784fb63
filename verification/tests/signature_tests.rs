use fnmock::param_utils::ParamShape;
use fnmock::signature::{
    kept_positions, process_mock_function, validate_function_mockable, validate_static_params,
    TypeShape,
};

const BORROWED: &str = "mock_function requires all parameters to be 'static. Parameters cannot contain references. Consider using owned types like String instead of &str, or Vec<T> instead of &[T].";

fn names(list: &[&str]) -> Vec<String> {
    list.iter().map(|s| s.to_string()).collect()
}

fn boxed(shape: TypeShape) -> Box<TypeShape> {
    Box::new(shape)
}

#[test]
fn references_are_found_at_any_depth() {
    assert!(TypeShape::Reference.contains_reference());
    assert!(!TypeShape::Other.contains_reference());
    assert!(!TypeShape::Tuple(vec![]).contains_reference());
    assert!(!TypeShape::Tuple(vec![TypeShape::Other, TypeShape::Other]).contains_reference());
    assert!(TypeShape::Tuple(vec![TypeShape::Other, TypeShape::Reference]).contains_reference());
    assert!(TypeShape::Tuple(vec![TypeShape::Reference, TypeShape::Other]).contains_reference());
    assert!(TypeShape::Array(boxed(TypeShape::Reference)).contains_reference());
    assert!(!TypeShape::Array(boxed(TypeShape::Other)).contains_reference());
    assert!(TypeShape::Slice(boxed(TypeShape::Reference)).contains_reference());
    assert!(!TypeShape::Slice(boxed(TypeShape::Other)).contains_reference());
    assert!(TypeShape::Paren(boxed(TypeShape::Reference)).contains_reference());
    assert!(TypeShape::Group(boxed(TypeShape::Reference)).contains_reference());
    let nested = TypeShape::Tuple(vec![
        TypeShape::Other,
        TypeShape::Paren(boxed(TypeShape::Array(boxed(TypeShape::Tuple(vec![
            TypeShape::Other,
            TypeShape::Group(boxed(TypeShape::Reference)),
        ]))))),
    ]);
    assert!(nested.contains_reference());
    let owned = TypeShape::Tuple(vec![
        TypeShape::Other,
        TypeShape::Paren(boxed(TypeShape::Array(boxed(TypeShape::Tuple(vec![
            TypeShape::Other,
            TypeShape::Group(boxed(TypeShape::Other)),
        ]))))),
    ]);
    assert!(!owned.contains_reference());
}

#[test]
fn first_borrowing_parameter_is_reported() {
    let types = vec![TypeShape::Other, TypeShape::Reference, TypeShape::Other, TypeShape::Reference];
    assert_eq!(validate_static_params(&types, &vec![]), Err(1));
    assert_eq!(validate_static_params(&types, &vec![1]), Err(3));
    assert_eq!(validate_static_params(&types, &vec![3, 1]), Ok(()));
    assert_eq!(validate_static_params(&vec![], &vec![]), Ok(()));
    assert_eq!(validate_static_params(&vec![TypeShape::Other], &vec![]), Ok(()));
}

#[test]
fn borrowing_parameter_makes_a_function_unmockable() {
    let types = vec![TypeShape::Other, TypeShape::Slice(boxed(TypeShape::Reference))];
    assert_eq!(validate_function_mockable(&types, &vec![]), Err(BORROWED.to_string()));
    assert_eq!(validate_function_mockable(&types, &vec![1]), Ok(()));
    assert_eq!(validate_function_mockable(&types, &vec![0]), Err(BORROWED.to_string()));
}

#[test]
fn kept_positions_are_the_positions_not_ignored() {
    assert_eq!(kept_positions(0, &vec![]), Vec::<usize>::new());
    assert_eq!(kept_positions(3, &vec![]), vec![0, 1, 2]);
    assert_eq!(kept_positions(3, &vec![2]), vec![0, 1]);
    assert_eq!(kept_positions(4, &vec![3, 0]), vec![1, 2]);
    assert_eq!(kept_positions(2, &vec![0, 1, 5]), Vec::<usize>::new());
}

#[test]
fn plan_for_a_function_with_an_ignored_parameter() {
    let plan = process_mock_function(
        "save_user",
        &names(&["id", "name", "timestamp"]),
        &vec![TypeShape::Other, TypeShape::Other, TypeShape::Other],
        &names(&["timestamp"]),
    )
    .ok()
    .unwrap();
    assert_eq!(plan.mock_fn_name, "save_user_mock");
    assert_eq!(plan.ignore_indices, vec![2]);
    assert_eq!(plan.kept_positions, vec![0, 1]);
    assert_eq!(plan.full_shape, ParamShape::Tuple(3));
    assert_eq!(plan.reduced_shape, ParamShape::Tuple(2));
}

#[test]
fn plan_shapes_at_the_edges() {
    let none = process_mock_function("f", &names(&[]), &vec![], &names(&[])).ok().unwrap();
    assert_eq!(none.mock_fn_name, "f_mock");
    assert_eq!(none.full_shape, ParamShape::Unit);
    assert_eq!(none.reduced_shape, ParamShape::Unit);
    assert!(none.kept_positions.is_empty());

    let one =
        process_mock_function("f", &names(&["x"]), &vec![TypeShape::Other], &names(&[])).ok().unwrap();
    assert_eq!(one.full_shape, ParamShape::Bare);
    assert_eq!(one.reduced_shape, ParamShape::Bare);

    let two_to_one = process_mock_function(
        "f",
        &names(&["x", "at"]),
        &vec![TypeShape::Other, TypeShape::Other],
        &names(&["at"]),
    )
    .ok()
    .unwrap();
    assert_eq!(two_to_one.full_shape, ParamShape::Tuple(2));
    assert_eq!(two_to_one.reduced_shape, ParamShape::Bare);
    assert_eq!(two_to_one.kept_positions, vec![0]);

    let all_ignored = process_mock_function(
        "f",
        &names(&["x"]),
        &vec![TypeShape::Reference],
        &names(&["x"]),
    )
    .ok()
    .unwrap();
    assert_eq!(all_ignored.full_shape, ParamShape::Bare);
    assert_eq!(all_ignored.reduced_shape, ParamShape::Unit);
}

#[test]
fn plan_ignores_borrowed_parameters_that_are_not_compared() {
    let plan = process_mock_function(
        "update_record",
        &names(&["id", "value", "created_at", "updated_at"]),
        &vec![
            TypeShape::Other,
            TypeShape::Other,
            TypeShape::Reference,
            TypeShape::Other,
        ],
        &names(&["updated_at", "created_at"]),
    )
    .ok()
    .unwrap();
    assert_eq!(plan.mock_fn_name, "update_record_mock");
    assert_eq!(plan.ignore_indices, vec![3, 2]);
    assert_eq!(plan.kept_positions, vec![0, 1]);
    assert_eq!(plan.reduced_shape, ParamShape::Tuple(2));
}

#[test]
fn plan_fails_on_an_unknown_ignored_name_first() {
    let result = process_mock_function(
        "f",
        &names(&["id", "data"]),
        &vec![TypeShape::Other, TypeShape::Reference],
        &names(&["when"]),
    );
    assert_eq!(
        result.err(),
        Some("Parameter 'when' not found in function signature".to_string())
    );
}

#[test]
fn plan_fails_on_a_borrowed_parameter_that_is_compared() {
    let result = process_mock_function(
        "f",
        &names(&["id", "data"]),
        &vec![TypeShape::Other, TypeShape::Reference],
        &names(&["id"]),
    );
    assert_eq!(result.err(), Some(BORROWED.to_string()));
}
