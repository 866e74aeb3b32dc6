use openapi_decl::params::{get_headers, ParameterLocation};
use openapi_decl::parse::{get_declaration, parse_yaml};
use openapi_decl::schema::{ObjectSchema, SchemaKind, SchemaNode};
use openapi_decl::swagger::{get_operation_and_schema, Warning};
use openapi_decl::types::ApiEndpointMethod;
use openapi_decl::utils::append_field;
use openapi_decl::yaml::Yaml;

fn scalar(kind: Option<SchemaKind>, description: &str) -> SchemaNode {
    SchemaNode::Object(ObjectSchema {
        kind,
        description: Some(description.to_owned()),
        enum_values: None,
        properties: vec![],
        required: vec![],
    })
}

#[test]
fn missing_declaration_yields_bare_operation() {
    let (op, schemas, warnings) =
        get_operation_and_schema("/a", ApiEndpointMethod::Get, "api", None);
    assert_eq!(op.operation_id, "/a");
    assert_eq!(op.tag, "api");
    assert_eq!(op.description, None);
    assert!(op.parameters.is_empty());
    assert!(op.request_body.is_none());
    assert!(op.response.is_none());
    assert!(schemas.is_empty());
    assert!(warnings.is_empty());
}

#[test]
fn unparsable_declaration_equals_missing_plus_warning() {
    let missing = get_operation_and_schema("/a", ApiEndpointMethod::Get, "api", None);
    let broken = get_operation_and_schema("/a", ApiEndpointMethod::Get, "api", Some("{"));
    assert_eq!(broken.0, missing.0);
    assert_eq!(broken.1, missing.1);
    assert_eq!(broken.2, vec![Warning::MalformedDeclaration]);
}

#[test]
fn declarationless_document_equals_missing_plus_warning() {
    let missing = get_operation_and_schema("/a", ApiEndpointMethod::Post, "api", None);
    let stray = get_operation_and_schema(
        "/a",
        ApiEndpointMethod::Post,
        "api",
        Some("it's not declaration"),
    );
    assert_eq!(stray.0, missing.0);
    assert_eq!(stray.1, missing.1);
    assert_eq!(stray.2, vec![Warning::MalformedDeclaration]);
}

#[test]
fn query_params_keep_order_and_drop_unnamed() {
    let decl = r#"
declaration:
  allowlist:
    query:
      - field: first
        type: integer
      - type: string
        description: no name here
      - field: second
        description: second one
"#;
    let (op, schemas, warnings) =
        get_operation_and_schema("/q", ApiEndpointMethod::Get, "api", Some(decl));
    assert_eq!(op.parameters.len(), 2);
    assert_eq!(op.parameters[0].name, "first");
    assert_eq!(op.parameters[0].location, ParameterLocation::Query);
    assert_eq!(op.parameters[0].description, None);
    assert_eq!(op.parameters[1].name, "second");
    assert_eq!(op.parameters[1].location, ParameterLocation::Query);
    assert_eq!(op.parameters[1].description, Some("second one".to_owned()));
    assert!(op.request_body.is_none());
    assert!(schemas.is_empty());
    assert!(warnings.is_empty());
}

#[test]
fn post_body_mirrors_nesting() {
    let decl = r#"
declaration:
  allowlist:
    body:
      - field: one
        type: integer
      - field: two
        type: object
        fields:
          - field: a
            type: string
"#;
    let (op, schemas, _) =
        get_operation_and_schema("/r", ApiEndpointMethod::Post, "api", Some(decl));
    let body = op.request_body.expect("body expected");
    assert_eq!(body.kind, None);
    assert_eq!(body.description, None);
    assert_eq!(body.required, vec!["one".to_owned(), "two".to_owned()]);
    assert_eq!(body.properties.len(), 2);
    assert_eq!(body.properties[0].0, "one");
    assert_eq!(body.properties[0].1, scalar(Some(SchemaKind::Numeric), ""));
    assert_eq!(body.properties[1].0, "two");
    assert_eq!(
        body.properties[1].1,
        SchemaNode::Object(ObjectSchema {
            kind: None,
            description: Some("".to_owned()),
            enum_values: None,
            properties: vec![("a".to_owned(), scalar(Some(SchemaKind::Text), ""))],
            required: vec![],
        })
    );
    assert_eq!(schemas.len(), 1);
    assert_eq!(schemas[0].0, "PostR");
}

#[test]
fn array_items_resolve_to_numeric() {
    let decl = r#"
declaration:
  allowlist:
    body:
      - field: three
        type: array
        items:
          type: integer
"#;
    let (op, _, _) = get_operation_and_schema("/r", ApiEndpointMethod::Post, "api", Some(decl));
    let body = op.request_body.expect("body expected");
    assert_eq!(body.properties.len(), 1);
    assert_eq!(
        body.properties[0].1,
        SchemaNode::Array(Some(Box::new(scalar(Some(SchemaKind::Numeric), ""))))
    );
}

#[test]
fn array_without_items_has_no_item_schema() {
    let decl = r#"
declaration:
  allowlist:
    body:
      - field: bare
        type: array
"#;
    let (op, _, _) = get_operation_and_schema("/r", ApiEndpointMethod::Post, "api", Some(decl));
    let body = op.request_body.expect("body expected");
    assert_eq!(body.properties[0].1, SchemaNode::Array(None));
}

#[test]
fn response_fields_make_array_schema_and_registry_entry() {
    let decl = r#"
declaration:
  response:
    fields:
      - field: one
        type: integer
      - field: two
"#;
    let (op, schemas, _) =
        get_operation_and_schema("/1/2/3", ApiEndpointMethod::Get, "api", Some(decl));
    let response = op.response.expect("response expected");
    let item = ObjectSchema {
        kind: None,
        description: None,
        enum_values: None,
        properties: vec![
            ("one".to_owned(), scalar(Some(SchemaKind::Numeric), "")),
            ("two".to_owned(), scalar(Some(SchemaKind::Text), "")),
        ],
        required: vec!["one".to_owned(), "two".to_owned()],
    };
    assert_eq!(
        response,
        SchemaNode::Array(Some(Box::new(SchemaNode::Object(ObjectSchema {
            kind: None,
            description: None,
            enum_values: None,
            properties: vec![
                ("one".to_owned(), scalar(Some(SchemaKind::Numeric), "")),
                ("two".to_owned(), scalar(Some(SchemaKind::Text), "")),
            ],
            required: vec!["one".to_owned(), "two".to_owned()],
        }))))
    );
    assert_eq!(schemas.len(), 1);
    assert_eq!(schemas[0].0, "Response123");
    assert_eq!(schemas[0].1, item);
}

#[test]
fn empty_response_fields_make_no_schema() {
    let decl = r#"
declaration:
  response:
    fields: []
"#;
    let (op, schemas, warnings) =
        get_operation_and_schema("/1/2/3", ApiEndpointMethod::Get, "api", Some(decl));
    assert!(op.response.is_none());
    assert!(schemas.is_empty());
    assert!(warnings.is_empty());
}

#[test]
fn enum_restricts_string_schema_in_order() {
    let decl = r#"
declaration:
  allowlist:
    body:
      - field: e
        type: string
        enum: [a, b, c]
"#;
    let (op, _, _) = get_operation_and_schema("/r", ApiEndpointMethod::Post, "api", Some(decl));
    let body = op.request_body.expect("body expected");
    assert_eq!(
        body.properties[0].1,
        SchemaNode::Object(ObjectSchema {
            kind: Some(SchemaKind::Text),
            description: Some("".to_owned()),
            enum_values: Some(vec!["a".to_owned(), "b".to_owned(), "c".to_owned()]),
            properties: vec![],
            required: vec![],
        })
    );
}

#[test]
fn non_string_enum_entries_are_dropped() {
    let decl = r#"
declaration:
  allowlist:
    body:
      - field: e
        type: string
        enum: [a, 1, c]
"#;
    let (op, _, _) = get_operation_and_schema("/r", ApiEndpointMethod::Post, "api", Some(decl));
    let body = op.request_body.expect("body expected");
    match &body.properties[0].1 {
        SchemaNode::Object(o) => {
            assert_eq!(
                o.enum_values,
                Some(vec!["a".to_owned(), "c".to_owned()])
            );
        }
        other => panic!("object schema expected, got {:?}", other),
    }
}

#[test]
fn non_string_description_warns_and_is_dropped() {
    let decl = r#"
declaration:
  description: [not, a, string]
"#;
    let (op, _, warnings) =
        get_operation_and_schema("/d", ApiEndpointMethod::Get, "api", Some(decl));
    assert_eq!(op.description, None);
    assert_eq!(warnings, vec![Warning::DescriptionNotString]);
}

#[test]
fn string_description_is_attached() {
    let decl = r#"
declaration:
  description: what this endpoint does
"#;
    let (op, _, warnings) =
        get_operation_and_schema("/d", ApiEndpointMethod::Get, "api", Some(decl));
    assert_eq!(op.description, Some("what this endpoint does".to_owned()));
    assert!(warnings.is_empty());
}

#[test]
fn truthy_optional_flag_marks_nested_field_required() {
    let decl = r#"
declaration:
  allowlist:
    body:
      - field: outer
        type: object
        fields:
          - field: marked
            type: string
            optional: true
          - field: unmarked
            type: string
"#;
    let (op, _, _) = get_operation_and_schema("/r", ApiEndpointMethod::Post, "api", Some(decl));
    let body = op.request_body.expect("body expected");
    match &body.properties[0].1 {
        SchemaNode::Object(o) => {
            assert_eq!(o.properties.len(), 2);
            assert_eq!(o.required, vec!["marked".to_owned()]);
        }
        other => panic!("object schema expected, got {:?}", other),
    }
}

#[test]
fn headers_are_extracted_but_not_attached() {
    let text = r#"
declaration:
  allowlist:
    headers:
      - field: one
        type: string
        description: test header
      - field: two
        type: string
"#;
    let tree = parse_yaml(text).expect("parses");
    let declaration = get_declaration(&tree).expect("declaration mapping");
    let headers = get_headers(declaration).expect("headers expected");
    assert_eq!(headers.len(), 2);
    assert_eq!(headers[0].name, "one");
    assert_eq!(headers[0].location, ParameterLocation::Header);
    assert_eq!(headers[0].description, Some("test header".to_owned()));
    assert_eq!(headers[1].name, "two");
    assert_eq!(headers[1].description, None);

    let (op, _, _) = get_operation_and_schema("/h", ApiEndpointMethod::Get, "api", Some(text));
    assert!(op.parameters.is_empty());
}

#[test]
fn append_field_drops_unnamed_specs() {
    let unnamed = Yaml::Mapping(vec![(
        Yaml::Str("type".to_owned()),
        Yaml::Str("integer".to_owned()),
    )]);
    let empty = ObjectSchema {
        kind: None,
        description: None,
        enum_values: None,
        properties: vec![],
        required: vec![],
    };
    let out = append_field(&unnamed, empty);
    assert!(out.properties.is_empty());
    assert!(out.required.is_empty());
}

#[test]
fn unrecognized_type_defaults_to_bare_schema() {
    let decl = r#"
declaration:
  allowlist:
    body:
      - field: odd
        type: mystery
        description: kept anyway
"#;
    let (op, _, _) = get_operation_and_schema("/r", ApiEndpointMethod::Post, "api", Some(decl));
    let body = op.request_body.expect("body expected");
    assert_eq!(body.properties[0].1, scalar(None, "kept anyway"));
}
