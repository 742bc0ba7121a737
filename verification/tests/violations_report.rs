use ion_schema::ion_path::IonPath;
use ion_schema::violation::{Violation, ViolationCode};

fn leaf(constraint: &str, code: ViolationCode, message: &str) -> Violation {
    Violation::new(
        constraint.to_string(),
        code,
        message.to_string(),
        IonPath::new(),
    )
}

#[test]
fn violation_new_keeps_its_fields() {
    let v = leaf("type", ViolationCode::TypeMismatched, "expected int");
    assert_eq!(v.message(), "expected int");
    assert_eq!(*v.code(), ViolationCode::TypeMismatched);
    assert!(v.violations().is_empty());
    assert_eq!(v.ion_path().len(), 0);
}

#[test]
fn a_leaf_flattens_to_itself() {
    let v = leaf("type", ViolationCode::TypeMismatched, "expected int");
    let flat = v.flattened_violations();
    assert_eq!(flat.len(), 1);
    assert_eq!(*flat[0].code(), ViolationCode::TypeMismatched);
}

#[test]
fn flattening_collects_leaves_depth_first() {
    let left = Violation::with_violations(
        "any_of".to_string(),
        ViolationCode::NoTypesMatched,
        "no type matched".to_string(),
        IonPath::new(),
        vec![
            leaf("type", ViolationCode::TypeMismatched, "not an int"),
            leaf("regex", ViolationCode::RegexMismatched, "no match"),
        ],
    );
    let right = leaf("container_length", ViolationCode::InvalidLength, "too long");
    let root = Violation::with_violations(
        "all_of".to_string(),
        ViolationCode::AllTypesNotMatched,
        "one type failed".to_string(),
        IonPath::new(),
        vec![left, right],
    );
    let flat = root.flattened_violations();
    assert_eq!(flat.len(), 3);
    assert_eq!(*flat[0].code(), ViolationCode::TypeMismatched);
    assert_eq!(*flat[1].code(), ViolationCode::RegexMismatched);
    assert_eq!(*flat[2].code(), ViolationCode::InvalidLength);
}

#[test]
fn flattened_violations_are_never_empty() {
    let interior = Violation::with_violations(
        "one_of".to_string(),
        ViolationCode::MoreThanOneTypeMatched,
        "two types matched".to_string(),
        IonPath::new(),
        vec![leaf("type", ViolationCode::TypeMatched, "matched twice")],
    );
    assert!(!interior.flattened_violations().is_empty());
    let single = leaf("not", ViolationCode::TypeMatched, "matched");
    assert!(!single.flattened_violations().is_empty());
}

#[test]
fn violation_code_names_are_snake_case() {
    assert_eq!(
        ViolationCode::AllTypesNotMatched.name(),
        "all_types_not_matched"
    );
    assert_eq!(ViolationCode::InvalidNull.name(), "invalid_null");
    assert_eq!(
        ViolationCode::MoreThanOneTypeMatched.name(),
        "more_than_one_type_matched"
    );
    assert_eq!(
        ViolationCode::UnexpectedAnnotation.name(),
        "unexpected_annotation"
    );
}

#[test]
fn description_carries_the_message() {
    let v = leaf("type", ViolationCode::TypeMismatched, "expected int");
    assert_eq!(v.description(), "A validation error occurred: expected int");
}

#[test]
fn ion_path_tracks_descent() {
    let mut p = IonPath::new();
    p.push(ion_schema::ion_path::IonPathElement::Field("a".to_string()));
    p.push(ion_schema::ion_path::IonPathElement::Index(3));
    assert_eq!(p.len(), 2);
    let popped = p.pop();
    assert!(matches!(
        popped,
        Some(ion_schema::ion_path::IonPathElement::Index(3))
    ));
    assert_eq!(p.len(), 1);
}
