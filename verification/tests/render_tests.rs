use gql_core::execution_error::{
    CoercionError, ErrorLocation, ExecutionError, FieldError, FieldNode, ParseError, PathSegment,
};

#[test]
fn no_operation_with_name_template() {
    let record = ExecutionError::NoOperationWithName { name: "Foo" }.render();
    assert_eq!(record.message, "No operation definition named `Foo`");
    assert_eq!(record.path, None);
    assert_eq!(record.locations, None);
}

#[test]
fn required_variable_missing_value_template() {
    let record = ExecutionError::RequiredVariableMissingValue { name: "id" }.render();
    assert_eq!(
        record.message,
        "No value was provided for required variable `$id`"
    );
    assert_eq!(record.path, None);
    assert_eq!(record.locations, None);
}

#[test]
fn anonymous_operation_template() {
    let record = ExecutionError::CannotUseAnonymousOperation.render();
    assert_eq!(
        record.message,
        "Operation name is required when document does not contain exactly 1 operation definition"
    );
    assert_eq!(record.path, None);
    assert_eq!(record.locations, None);
}

#[test]
fn application_error_template() {
    let record = ExecutionError::ApplicationError(String::from("resolver panicked")).render();
    assert_eq!(record.message, "Internal error: resolver panicked");
    assert_eq!(record.path, None);
    assert_eq!(record.locations, None);
}

#[test]
fn parse_error_delegates_message() {
    let record = ExecutionError::ParseError(ParseError {
        message: String::from("unexpected token"),
    })
    .render();
    assert_eq!(record.message, "unexpected token");
    assert_eq!(record.path, None);
    assert_eq!(record.locations, None);
}

#[test]
fn coercion_error_delegates_whole_record() {
    let coercion = CoercionError {
        message: String::from("cannot coerce \"x\" to Int"),
        path: Some(vec![PathSegment::Field(String::from("arg"))]),
        locations: Some(vec![ErrorLocation { line: 3, col: 9 }]),
    };
    let record = ExecutionError::CoercionError(coercion).render();
    assert_eq!(record.message, "cannot coerce \"x\" to Int");
    assert_eq!(
        record.path,
        Some(vec![PathSegment::Field(String::from("arg"))])
    );
    assert_eq!(record.locations, Some(vec![ErrorLocation { line: 3, col: 9 }]));
}

#[test]
fn every_variant_renders_nonempty_message() {
    let records = vec![
        ExecutionError::NoOperationWithName { name: "Q" }.render(),
        ExecutionError::CannotUseAnonymousOperation.render(),
        ExecutionError::RequiredVariableMissingValue { name: "v" }.render(),
        ExecutionError::ApplicationError(String::from("x")).render(),
        ExecutionError::CoercionError(CoercionError {
            message: String::from("bad value"),
            path: None,
            locations: None,
        })
        .render(),
        ExecutionError::ParseError(ParseError {
            message: String::from("bad token"),
        })
        .render(),
        ExecutionError::FieldError {
            error: FieldError {
                message: String::from("boom"),
            },
            path: vec![],
            query: "{f}",
            fields: vec![],
        }
        .render(),
    ];
    for record in records {
        assert!(!record.message.is_empty());
    }
}

#[test]
fn field_error_path_order_preserved() {
    let record = ExecutionError::FieldError {
        error: FieldError {
            message: String::from("failed"),
        },
        path: vec![
            PathSegment::Field(String::from("user")),
            PathSegment::ListIndex(0),
            PathSegment::Field(String::from("email")),
        ],
        query: "{ user { email } }",
        fields: vec![],
    }
    .render();
    assert_eq!(
        record.path,
        Some(vec![
            PathSegment::Field(String::from("user")),
            PathSegment::ListIndex(0),
            PathSegment::Field(String::from("email")),
        ])
    );
}

#[test]
fn field_error_location_line_two_column_three() {
    let query = "{\n  field\n}";
    let record = ExecutionError::FieldError {
        error: FieldError {
            message: String::from("field failed"),
        },
        path: vec![PathSegment::Field(String::from("field"))],
        query,
        fields: vec![FieldNode {
            span_start: 4,
            span_end: 9,
        }],
    }
    .render();
    assert_eq!(record.message, "field failed");
    assert_eq!(record.locations, Some(vec![ErrorLocation { line: 2, col: 3 }]));
}

#[test]
fn field_error_multiple_locations_in_order() {
    let query = "{\n  a\n  a\n}";
    let record = ExecutionError::FieldError {
        error: FieldError {
            message: String::from("duplicated"),
        },
        path: vec![PathSegment::Field(String::from("a"))],
        query,
        fields: vec![
            FieldNode {
                span_start: 4,
                span_end: 5,
            },
            FieldNode {
                span_start: 8,
                span_end: 9,
            },
        ],
    }
    .render();
    assert_eq!(
        record.locations,
        Some(vec![
            ErrorLocation { line: 2, col: 3 },
            ErrorLocation { line: 3, col: 3 },
        ])
    );
}

#[test]
fn scenario_missing_required_variable() {
    // operation declares non-null `$id` with no default and no value arrives:
    // the engine reports exactly one error, rendered from this variant
    let errors = vec![ExecutionError::RequiredVariableMissingValue { name: "id" }];
    let records: Vec<_> = errors.into_iter().map(|e| e.render()).collect();
    assert_eq!(records.len(), 1);
    assert_eq!(
        records[0].message,
        "No value was provided for required variable `$id`"
    );
    assert_eq!(records[0].path, None);
}

#[test]
fn scenario_ambiguous_anonymous_operation() {
    // two named operations, no name supplied by the caller
    let record = ExecutionError::CannotUseAnonymousOperation.render();
    assert_eq!(
        record.message,
        "Operation name is required when document does not contain exactly 1 operation definition"
    );
}

#[test]
fn scenario_nested_list_failure_path() {
    // element 2 of list field `items` under root field `search` failed
    let record = ExecutionError::FieldError {
        error: FieldError {
            message: String::from("item unavailable"),
        },
        path: vec![
            PathSegment::Field(String::from("search")),
            PathSegment::Field(String::from("items")),
            PathSegment::ListIndex(2),
        ],
        query: "{ search { items } }",
        fields: vec![],
    }
    .render();
    assert_eq!(
        record.path,
        Some(vec![
            PathSegment::Field(String::from("search")),
            PathSegment::Field(String::from("items")),
            PathSegment::ListIndex(2),
        ])
    );
    match &record.path {
        Some(segments) => assert_eq!(segments[2], PathSegment::ListIndex(2)),
        None => panic!("path expected"),
    }
}
