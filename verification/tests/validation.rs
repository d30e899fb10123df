use schema_validator::errors::{ContextEntry, ErrorKind, LocItem, ValError, ValLineError};
use schema_validator::schema::Schema;
use schema_validator::validators::{BuildError, IntValidator, ListValidator, SchemaValidator};
use schema_validator::value::{validate_list, Value};

fn list_schema(
    items: Option<Schema>,
    min_items: Option<usize>,
    max_items: Option<usize>,
) -> Schema {
    Schema { tag: "list".to_string(), items: items.map(Box::new), min_items, max_items }
}

fn int_schema() -> Schema {
    Schema { tag: "int".to_string(), items: None, min_items: None, max_items: None }
}

fn build(schema: &Schema) -> SchemaValidator {
    SchemaValidator::build(schema).expect("schema should build")
}

#[test]
fn scenario_too_short() {
    let v = build(&list_schema(None, Some(2), None));
    let r = v.validate(Value::List(vec![Value::Int(1)]));
    let expected = ValLineError {
        kind: ErrorKind::ListTooShort,
        context: Some(vec![ContextEntry { key: "min_length".to_string(), value: 2 }]),
        location: vec![],
    };
    assert_eq!(r, Err(ValError::LineErrors(vec![expected])));
}

#[test]
fn scenario_too_long() {
    let v = build(&list_schema(None, None, Some(1)));
    let r = v.validate(Value::List(vec![Value::Int(1), Value::Int(2)]));
    let expected = ValLineError {
        kind: ErrorKind::ListTooLong,
        context: Some(vec![ContextEntry { key: "max_length".to_string(), value: 1 }]),
        location: vec![],
    };
    assert_eq!(r, Err(ValError::LineErrors(vec![expected])));
}

#[test]
fn scenario_pass_through() {
    let v = build(&list_schema(None, None, None));
    let input = vec![Value::Int(1), Value::Str("x".to_string()), Value::Bool(true)];
    let r = v.validate(Value::List(input.clone()));
    assert_eq!(r, Ok(Value::List(input)));
}

#[test]
fn scenario_nested_int_failure() {
    let v = build(&list_schema(Some(int_schema()), None, None));
    let r = v.validate(Value::List(vec![
        Value::Int(1),
        Value::Str("x".to_string()),
        Value::Int(3),
    ]));
    let expected = ValLineError {
        kind: ErrorKind::IntType,
        context: None,
        location: vec![LocItem::Index(1)],
    };
    assert_eq!(r, Err(ValError::LineErrors(vec![expected])));
}

#[test]
fn aggregation_reports_every_failing_element() {
    let v = build(&list_schema(Some(int_schema()), None, None));
    let r = v.validate(Value::List(vec![
        Value::Str("x".to_string()),
        Value::Int(2),
        Value::Bool(false),
        Value::Int(4),
    ]));
    let expected = vec![
        ValLineError { kind: ErrorKind::IntType, context: None, location: vec![LocItem::Index(0)] },
        ValLineError { kind: ErrorKind::IntType, context: None, location: vec![LocItem::Index(2)] },
    ];
    assert_eq!(r, Err(ValError::LineErrors(expected)));
}

#[test]
fn elements_validate_and_rebuild_output() {
    let v = build(&list_schema(Some(int_schema()), None, None));
    let r = v.validate(Value::List(vec![Value::Int(7), Value::Int(8)]));
    assert_eq!(r, Ok(Value::List(vec![Value::Int(7), Value::Int(8)])));
}

#[test]
fn empty_list_with_element_validator() {
    let v = build(&list_schema(Some(int_schema()), None, None));
    let r = v.validate(Value::List(vec![]));
    assert_eq!(r, Ok(Value::List(vec![])));
}

#[test]
fn bounds_satisfied_on_boundary() {
    let v = build(&list_schema(None, Some(2), Some(2)));
    let input = vec![Value::Int(1), Value::Int(2)];
    let r = v.validate(Value::List(input.clone()));
    assert_eq!(r, Ok(Value::List(input)));
}

#[test]
fn max_items_zero_allows_only_empty() {
    let v = build(&list_schema(None, None, Some(0)));
    assert_eq!(v.validate(Value::List(vec![])), Ok(Value::List(vec![])));
    let expected = ValLineError {
        kind: ErrorKind::ListTooLong,
        context: Some(vec![ContextEntry { key: "max_length".to_string(), value: 0 }]),
        location: vec![],
    };
    assert_eq!(
        v.validate(Value::List(vec![Value::Int(1)])),
        Err(ValError::LineErrors(vec![expected]))
    );
}

#[test]
fn wrong_shape_is_fatal() {
    let v = build(&list_schema(None, None, None));
    let r = v.validate(Value::Int(3));
    assert_eq!(r, Err(ValError::Fatal(ErrorKind::ListType)));
}

#[test]
fn bounds_check_precedes_elements() {
    // With the minimum violated, no per-element error appears at all.
    let v = build(&list_schema(Some(int_schema()), Some(3), None));
    let r = v.validate(Value::List(vec![Value::Str("x".to_string())]));
    let expected = ValLineError {
        kind: ErrorKind::ListTooShort,
        context: Some(vec![ContextEntry { key: "min_length".to_string(), value: 3 }]),
        location: vec![],
    };
    assert_eq!(r, Err(ValError::LineErrors(vec![expected])));
}

#[test]
fn nested_location_composition() {
    // list of lists of ints; the inner failure at index 1 of element 0 is
    // reported at [0, 1].
    let inner = list_schema(Some(int_schema()), None, None);
    let v = build(&list_schema(Some(inner), None, None));
    let r = v.validate(Value::List(vec![Value::List(vec![
        Value::Int(1),
        Value::Str("x".to_string()),
    ])]));
    let expected = ValLineError {
        kind: ErrorKind::IntType,
        context: None,
        location: vec![LocItem::Index(0), LocItem::Index(1)],
    };
    assert_eq!(r, Err(ValError::LineErrors(vec![expected])));
}

#[test]
fn child_fatal_aborts_and_discards_line_errors() {
    // The child validator is itself a list validator with a minimum, so
    // element 0 yields a reportable error but element 1 fails fatally: the
    // fatal failure propagates untouched and nothing is aggregated with it.
    let inner = list_schema(None, Some(1), None);
    let v = build(&list_schema(Some(inner), None, None));
    let r = v.validate(Value::List(vec![Value::List(vec![]), Value::Int(5)]));
    assert_eq!(r, Err(ValError::Fatal(ErrorKind::ListType)));
}

#[test]
fn coercion_accepts_only_lists() {
    assert_eq!(validate_list(Value::List(vec![Value::Int(1)])), Ok(vec![Value::Int(1)]));
    assert_eq!(
        validate_list(Value::Str("x".to_string())),
        Err(ValError::Fatal(ErrorKind::ListType))
    );
}

#[test]
fn build_unrecognized_discriminator() {
    let schema = Schema { tag: "wat".to_string(), items: None, min_items: None, max_items: None };
    assert_eq!(SchemaValidator::build(&schema), Err(BuildError::UnrecognizedType));
}

#[test]
fn build_inconsistent_bounds() {
    let schema = list_schema(None, Some(3), Some(2));
    assert_eq!(SchemaValidator::build(&schema), Err(BuildError::InconsistentBounds));
}

#[test]
fn build_surfaces_nested_failure_first() {
    // A malformed nested schema is reported even when the bounds are also
    // inconsistent: the child is built before the bounds are read.
    let bad_inner = Schema {
        tag: "wat".to_string(),
        items: None,
        min_items: None,
        max_items: None,
    };
    let schema = list_schema(Some(bad_inner), Some(3), Some(2));
    assert_eq!(SchemaValidator::build(&schema), Err(BuildError::UnrecognizedType));
}

#[test]
fn build_reads_bounds_and_items() {
    let v = build(&list_schema(Some(int_schema()), Some(1), Some(4)));
    match v {
        SchemaValidator::List(lv) => {
            assert_eq!(lv.min_items, Some(1));
            assert_eq!(lv.max_items, Some(4));
            assert_eq!(lv.item_validator, Some(Box::new(SchemaValidator::Int(IntValidator {}))));
        },
        _ => panic!("expected a list validator"),
    }
}

#[test]
fn is_match_selects_by_discriminator() {
    let s = int_schema();
    assert!(ListValidator::is_match("list", &s));
    assert!(!ListValidator::is_match("int", &s));
    assert!(IntValidator::is_match("int", &s));
    assert!(!IntValidator::is_match("list", &s));
}

#[test]
fn int_validator_leaf() {
    let v = IntValidator {};
    assert_eq!(v.validate(Value::Int(5)), Ok(Value::Int(5)));
    let expected = ValLineError { kind: ErrorKind::IntType, context: None, location: vec![] };
    assert_eq!(
        v.validate(Value::Bool(true)),
        Err(ValError::LineErrors(vec![expected]))
    );
}

#[test]
fn clone_dyn_is_deep_and_equivalent() {
    let v = build(&list_schema(Some(int_schema()), Some(1), None));
    let lv = match &v {
        SchemaValidator::List(lv) => lv,
        _ => panic!("expected a list validator"),
    };
    let copy = lv.clone_dyn();
    assert_eq!(*copy, v);
    let input = vec![Value::Int(1), Value::Str("x".to_string())];
    assert_eq!(
        copy.validate(Value::List(input.clone())),
        v.validate(Value::List(input))
    );
}

#[test]
fn with_location_prepends() {
    let err = ValLineError {
        kind: ErrorKind::IntType,
        context: None,
        location: vec![LocItem::Index(1), LocItem::Key("a".to_string())],
    };
    let moved = err.with_location(&vec![LocItem::Index(0)]);
    assert_eq!(moved.kind, ErrorKind::IntType);
    assert_eq!(moved.context, None);
    assert_eq!(
        moved.location,
        vec![LocItem::Index(0), LocItem::Index(1), LocItem::Key("a".to_string())]
    );
}
