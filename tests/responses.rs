use recipe_api::api_enum::{impl_api_enum, parse_enum, EnumError, FieldShape, VariantInput};
use recipe_api::attributes::{parse_variant_attribute, AttrError, SubAttr, VariantAttr};
use recipe_api::response::{
    create_failure, create_success, success_and_failure_parser, CommonAttributes, MessageFormat,
    ResponseError, ResponseShape, SuccessFailure, Variant,
};
use recipe_api::status::identifier;
use recipe_api::template::fill_template;

fn attrs(message: Option<&str>, json: Option<bool>) -> CommonAttributes {
    CommonAttributes { message: message.map(|m| m.to_string()), json }
}

fn message(template: &str, arg_count: usize) -> Option<MessageFormat> {
    Some(MessageFormat { template: template.to_string(), arg_count })
}

fn render(shape: &ResponseShape, fields: &[&str]) -> String {
    let fields: Vec<String> = fields.iter().map(|f| f.to_string()).collect();
    shape.message.as_ref().unwrap().render(&fields)
}

fn respond(field_count: Option<usize>, status: Option<u16>, attribute: SuccessFailure) -> (u16, &'static str, ResponseShape) {
    let r = Variant { field_count, status, attribute }.to_response().unwrap();
    (r.status, r.status_name, r.shape)
}

#[test]
fn status_names() {
    assert_eq!(identifier(200), Some("Ok"));
    assert_eq!(identifier(404), Some("NotFound"));
    assert_eq!(identifier(418), None);
    assert_eq!(identifier(508), Some("LoopDetected"));
    assert_eq!(identifier(0), None);
}

#[test]
fn test_hello() {
    let (status, name, shape) = respond(None, None, SuccessFailure::Success(attrs(None, None)));
    assert_eq!((status, name), (200, "Ok"));
    assert_eq!(shape, ResponseShape { success: true, message: None, data_field: None, in_error_object: false });
}

#[test]
fn test_name() {
    let (status, _, shape) = respond(Some(1), None, SuccessFailure::Success(attrs(Some("Hello, {}"), None)));
    assert_eq!(status, 200);
    assert_eq!(shape.message, message("Hello, {}", 1));
    assert_eq!(shape.data_field, None);
    assert_eq!(render(&shape, &["Player"]), "Hello, Player");
    assert_eq!(render(&shape, &["Lil Timmy"]), "Hello, Lil Timmy");
    assert_eq!(render(&shape, &[""]), "Hello, ");
}

#[test]
fn test_user() {
    let (status, _, shape) =
        respond(Some(2), None, SuccessFailure::Success(attrs(Some("Hello User {}!"), Some(true))));
    assert_eq!(status, 200);
    assert_eq!(shape.message, message("Hello User {}!", 1));
    assert_eq!(shape.data_field, Some(1));
    assert!(shape.success);
    assert_eq!(render(&shape, &["Jimbo", "user"]), "Hello User Jimbo!");
    assert_eq!(render(&shape, &["", "user"]), "Hello User !");
    assert_eq!(render(&shape, &["This has a name", "user"]), "Hello User This has a name!");
}

#[test]
fn test_userjson() {
    let (_, _, shape) = respond(Some(1), None, SuccessFailure::Success(attrs(None, Some(true))));
    assert_eq!(shape, ResponseShape { success: true, message: None, data_field: Some(0), in_error_object: false });
}

#[test]
fn test_genericerror() {
    let (status, name, shape) = respond(None, None, SuccessFailure::Failure(attrs(None, None)));
    assert_eq!((status, name), (400, "BadRequest"));
    assert_eq!(shape, ResponseShape { success: false, message: None, data_field: None, in_error_object: false });
}

#[test]
fn test_not_permitted() {
    let (status, name, shape) = respond(
        Some(1),
        Some(401),
        SuccessFailure::Failure(attrs(Some("Not permitted to view User {}"), Some(false))),
    );
    assert_eq!((status, name), (401, "Unauthorized"));
    assert_eq!(shape.message, message("Not permitted to view User {}", 1));
    assert_eq!(shape.data_field, None);
    assert!(shape.in_error_object);
    assert_eq!(render(&shape, &["1"]), "Not permitted to view User 1");
    assert_eq!(render(&shape, &["0"]), "Not permitted to view User 0");
    assert_eq!(render(&shape, &["1000000"]), "Not permitted to view User 1000000");
}

#[test]
fn test_not_found() {
    let (status, _, shape) =
        respond(Some(2), None, SuccessFailure::Failure(attrs(Some("User with id {} not found"), Some(true))));
    assert_eq!(status, 400);
    assert_eq!(shape.message, message("User with id {} not found", 1));
    assert_eq!(shape.data_field, Some(1));
    assert!(shape.in_error_object && !shape.success);
    assert_eq!(render(&shape, &["1", "1"]), "User with id 1 not found");
    assert_eq!(render(&shape, &["0", "0"]), "User with id 0 not found");
    assert_eq!(render(&shape, &["405", "405"]), "User with id 405 not found");
}

#[test]
fn test_internal_server_error() {
    let (status, name, shape) =
        respond(None, Some(500), SuccessFailure::Failure(attrs(Some("Internal Server Error"), None)));
    assert_eq!((status, name), (500, "InternalServerError"));
    assert_eq!(shape.message, message("Internal Server Error", 0));
    assert_eq!(render(&shape, &[]), "Internal Server Error");
    assert!(shape.in_error_object);
}

#[test]
fn json_needs_a_field() {
    assert_eq!(
        success_and_failure_parser(None, attrs(None, Some(true))),
        Err(ResponseError::JsonOnUnitVariant)
    );
    assert_eq!(
        success_and_failure_parser(Some(0), attrs(Some("x"), Some(true))),
        Err(ResponseError::JsonNeedsField)
    );
    assert_eq!(success_and_failure_parser(None, attrs(None, Some(false))), Ok((None, None)));
    assert_eq!(success_and_failure_parser(Some(3), attrs(Some("{}{}{}"), None)), Ok((message("{}{}{}", 3), None)));
    assert_eq!(ResponseError::JsonNeedsField.message(), "JSON requires at least one field");
    assert_eq!(ResponseError::JsonOnUnitVariant.message(), "JSON is not supported for unit variants");
}

#[test]
fn failure_without_content_has_no_error_object() {
    assert_eq!(create_failure(Some(2), attrs(None, None)).unwrap().in_error_object, false);
    assert_eq!(create_failure(Some(2), attrs(None, Some(true))).unwrap().in_error_object, true);
    assert_eq!(create_success(Some(2), attrs(Some("m"), None)).unwrap().in_error_object, false);
}

#[test]
fn unknown_status_is_reported_after_body_errors() {
    let v = Variant { field_count: None, status: Some(418), attribute: SuccessFailure::Success(attrs(None, None)) };
    assert_eq!(v.to_response(), Err(ResponseError::UnknownStatus(418)));
    let v = Variant { field_count: None, status: Some(418), attribute: SuccessFailure::Success(attrs(None, Some(true))) };
    assert_eq!(v.to_response(), Err(ResponseError::JsonOnUnitVariant));
}

#[test]
fn variant_attributes_are_read_in_order() {
    let a = vec![
        VariantAttr::Other,
        VariantAttr::StatusCode(404),
        VariantAttr::Failure(Some(vec![
            SubAttr::Message("first".to_string()),
            SubAttr::Json(true),
            SubAttr::Message("second".to_string()),
        ])),
        VariantAttr::StatusCode(405),
    ];
    assert_eq!(
        parse_variant_attribute(a),
        Ok((Some(405), SuccessFailure::Failure(attrs(Some("second"), Some(true)))))
    );
    assert_eq!(
        parse_variant_attribute(vec![VariantAttr::Success(None)]),
        Ok((None, SuccessFailure::Success(attrs(None, None))))
    );
}

#[test]
fn variant_attribute_errors() {
    assert_eq!(parse_variant_attribute(vec![]), Err(AttrError::NotFound));
    assert_eq!(parse_variant_attribute(vec![VariantAttr::StatusCode(200)]), Err(AttrError::NotFound));
    assert_eq!(
        parse_variant_attribute(vec![VariantAttr::Success(None), VariantAttr::Failure(None)]),
        Err(AttrError::Duplicate)
    );
    assert_eq!(
        parse_variant_attribute(vec![VariantAttr::Success(Some(vec![SubAttr::Unknown]))]),
        Err(AttrError::UnknownSubAttribute)
    );
    assert_eq!(
        parse_variant_attribute(vec![
            VariantAttr::Success(None),
            VariantAttr::Failure(Some(vec![SubAttr::Unknown])),
        ]),
        Err(AttrError::Duplicate)
    );
    assert_eq!(AttrError::Duplicate.message(), "Only one success or failure attribute is allowed");
    assert_eq!(AttrError::NotFound.message(), "No success or failure attribute found");
    assert_eq!(AttrError::UnknownSubAttribute.message(), "Unknown sub-attribute");
}

fn sub(message: Option<&str>, json: Option<bool>) -> Option<Vec<SubAttr>> {
    let mut v = vec![];
    if let Some(m) = message {
        v.push(SubAttr::Message(m.to_string()));
    }
    if let Some(j) = json {
        v.push(SubAttr::Json(j));
    }
    if v.is_empty() {
        None
    } else {
        Some(v)
    }
}

fn hello_world_enum() -> Vec<VariantInput> {
    vec![
        VariantInput { fields: FieldShape::Unit, attrs: vec![VariantAttr::Success(None)] },
        VariantInput { fields: FieldShape::Unnamed(1), attrs: vec![VariantAttr::Success(sub(Some("Hello, {}"), None))] },
        VariantInput {
            fields: FieldShape::Unnamed(2),
            attrs: vec![VariantAttr::Success(sub(Some("Hello User {}!"), Some(true)))],
        },
        VariantInput { fields: FieldShape::Unnamed(1), attrs: vec![VariantAttr::Success(sub(None, Some(true)))] },
        VariantInput { fields: FieldShape::Unit, attrs: vec![VariantAttr::Failure(None)] },
        VariantInput {
            fields: FieldShape::Unnamed(1),
            attrs: vec![
                VariantAttr::Failure(sub(Some("Not permitted to view User {}"), Some(false))),
                VariantAttr::StatusCode(401),
            ],
        },
        VariantInput {
            fields: FieldShape::Unnamed(2),
            attrs: vec![VariantAttr::Failure(sub(Some("User with id {} not found"), Some(true)))],
        },
        VariantInput {
            fields: FieldShape::Unit,
            attrs: vec![VariantAttr::Failure(sub(Some("Internal Server Error"), None)), VariantAttr::StatusCode(500)],
        },
    ]
}

#[test]
fn whole_enum_derives_every_response() {
    let responses = impl_api_enum(hello_world_enum()).unwrap();
    let statuses: Vec<u16> = responses.iter().map(|r| r.status).collect();
    assert_eq!(statuses, vec![200, 200, 200, 200, 400, 401, 400, 500]);
    assert_eq!(responses[2].shape.message, message("Hello User {}!", 1));
    assert_eq!(responses[2].shape.data_field, Some(1));
    assert_eq!(responses[7].status_name, "InternalServerError");
    assert!(!responses[4].shape.in_error_object);
}

#[test]
fn enum_errors_come_in_order() {
    let mut e = hello_world_enum();
    e.push(VariantInput { fields: FieldShape::Named, attrs: vec![VariantAttr::Success(None)] });
    assert_eq!(parse_enum(e.clone()), Err(EnumError::NamedFields));
    e.insert(0, VariantInput { fields: FieldShape::Unit, attrs: vec![VariantAttr::StatusCode(404)] });
    assert_eq!(impl_api_enum(e), Err(EnumError::Attr(AttrError::NotFound)));

    let mut e = hello_world_enum();
    e.push(VariantInput { fields: FieldShape::Unit, attrs: vec![VariantAttr::Success(None), VariantAttr::StatusCode(418)] });
    e.push(VariantInput { fields: FieldShape::Unit, attrs: vec![VariantAttr::Success(sub(None, Some(true)))] });
    assert_eq!(parse_enum(e.clone()).unwrap().len(), 10);
    assert_eq!(impl_api_enum(e), Err(EnumError::Response(ResponseError::UnknownStatus(418))));
}

#[test]
fn templates_fill_placeholders_in_order() {
    let args = vec!["a".to_string(), "b".to_string(), "c".to_string()];
    assert_eq!(fill_template("{} and {}", &args, 2), "a and b");
    assert_eq!(fill_template("{{}} {}", &args, 1), "{} a");
    assert_eq!(fill_template("{} {} {}", &args, 1), "a {} {}");
    assert_eq!(fill_template("", &args, 3), "");
    assert_eq!(fill_template("é{}ü}", &args, 3), "éaü}");
    let m = MessageFormat { template: "Expected `{}`, got `{}`".to_string(), arg_count: 2 };
    assert_eq!(m.render(&vec!["1..=8".to_string(), "9".to_string()]), "Expected `1..=8`, got `9`");
}
