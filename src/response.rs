use crate::status::{identifier, status_name};
use crate::template::{fill_template, filled, texts};
use vstd::prelude::*;

verus! {

/// The options of a `success` or `failure` attribute on a variant of an API
/// response enum.
#[derive(Clone, Debug, PartialEq, Eq)]
pub struct CommonAttributes {
    /// The message template, whose `{}` take the variant's fields in order.
    pub message: Option<String>,
    /// Whether the last field is sent as the response's data.
    pub json: Option<bool>,
}

/// A `success` attribute.
pub type Success = CommonAttributes;

/// A `failure` attribute.
pub type Failure = CommonAttributes;

/// Whether a variant answers with success or with failure, and how.
#[derive(Clone, Debug, PartialEq, Eq)]
pub enum SuccessFailure {
    Success(Success),
    Failure(Failure),
}

/// Why the response of a variant cannot be built.
#[derive(Clone, Copy, Debug, PartialEq, Eq, Structural)]
pub enum ResponseError {
    /// `json` is asked of a variant without fields.
    JsonOnUnitVariant,
    /// `json` is asked of a variant with an empty field list.
    JsonNeedsField,
    /// The status code has no name among the response statuses.
    UnknownStatus(u16),
}

impl ResponseError {
    /// The text of the error.
    pub fn message(&self) -> (r: &'static str)
        ensures
            *self == ResponseError::JsonOnUnitVariant ==> r@ == "JSON is not supported for unit variants"@,
            *self == ResponseError::JsonNeedsField ==> r@ == "JSON requires at least one field"@,
            *self is UnknownStatus ==> r@ == "unknown status code"@,
    {
        match self {
            ResponseError::JsonOnUnitVariant => "JSON is not supported for unit variants",
            ResponseError::JsonNeedsField => "JSON requires at least one field",
            ResponseError::UnknownStatus(_) => "unknown status code",
        }
    }
}

/// The `message` field of a response: a template and how many of the
/// variant's first fields fill it.
#[derive(Clone, Debug, PartialEq, Eq)]
pub struct MessageFormat {
    pub template: String,
    pub arg_count: usize,
}

impl MessageFormat {
    /// The message text for a variant whose fields read as `fields`: the
    /// template filled with the first `arg_count` of them.
    pub fn render(&self, fields: &Vec<String>) -> (r: String)
        requires
            self.arg_count <= fields@.len(),
        ensures
            r@ == filled(self.template@, texts(fields@).take(self.arg_count as int)),
    {
        fill_template(self.template.as_str(), fields, self.arg_count)
    }
}

/// The message and data fields of a response: the message, if any, and the
/// index of the field sent as data, if any.
pub type ResponseFields = (Option<MessageFormat>, Option<usize>);

/// The message with `k` arguments, where a template is set.
pub open spec fn message_with(m: Option<String>, k: usize) -> Option<MessageFormat> {
    match m {
        Some(t) => Some(MessageFormat { template: t, arg_count: k }),
        None => None,
    }
}

/// The fields of the response of a variant with `n` fields (`None` for a
/// variant without a field list). With `json` on, the last field is the
/// data and the others fill the message.
pub open spec fn fields_of(n: Option<usize>, a: CommonAttributes) -> Result<ResponseFields, ResponseError> {
    match n {
        None => if a.json == Some(true) {
            Err(ResponseError::JsonOnUnitVariant)
        } else {
            Ok((message_with(a.message, 0), None))
        },
        Some(k) => if a.json == Some(true) {
            if k == 0 {
                Err(ResponseError::JsonNeedsField)
            } else {
                Ok((message_with(a.message, (k - 1) as usize), Some((k - 1) as usize)))
            }
        } else {
            Ok((message_with(a.message, k), None))
        },
    }
}

/// Works out the message and data fields of the response of a variant with
/// `field_count` fields.
pub fn success_and_failure_parser(field_count: Option<usize>, sf: CommonAttributes) -> (r: Result<
    ResponseFields,
    ResponseError,
>)
    ensures
        r == fields_of(field_count, sf),
{
    let json_on = match sf.json {
        Some(j) => j,
        None => false,
    };
    match field_count {
        None => {
            if json_on {
                return Err(ResponseError::JsonOnUnitVariant);
            }
            let message = match sf.message {
                Some(t) => Some(MessageFormat { template: t, arg_count: 0 }),
                None => None,
            };
            Ok((message, None))
        },
        Some(k) => {
            if json_on {
                if k == 0 {
                    return Err(ResponseError::JsonNeedsField);
                }
                let message = match sf.message {
                    Some(t) => Some(MessageFormat { template: t, arg_count: k - 1 }),
                    None => None,
                };
                Ok((message, Some(k - 1)))
            } else {
                let message = match sf.message {
                    Some(t) => Some(MessageFormat { template: t, arg_count: k }),
                    None => None,
                };
                Ok((message, None))
            }
        },
    }
}

/// The JSON body of a response: `success`, then the message and data,
/// which a failure nests in an `error` object where either is present.
#[derive(Clone, Debug, PartialEq, Eq)]
pub struct ResponseShape {
    pub success: bool,
    pub message: Option<MessageFormat>,
    pub data_field: Option<usize>,
    pub in_error_object: bool,
}

/// The body of a successful response of a variant with `n` fields.
pub open spec fn success_shape(n: Option<usize>, a: Success) -> Result<ResponseShape, ResponseError> {
    match fields_of(n, a) {
        Ok(f) => Ok(ResponseShape { success: true, message: f.0, data_field: f.1, in_error_object: false }),
        Err(e) => Err(e),
    }
}

/// The body of a failed response of a variant with `n` fields.
pub open spec fn failure_shape(n: Option<usize>, a: Failure) -> Result<ResponseShape, ResponseError> {
    match fields_of(n, a) {
        Ok(f) => Ok(
            ResponseShape {
                success: false,
                message: f.0,
                data_field: f.1,
                in_error_object: f.0 is Some || f.1 is Some,
            },
        ),
        Err(e) => Err(e),
    }
}

/// The body of the successful response of a variant.
pub fn create_success(field_count: Option<usize>, success: Success) -> (r: Result<ResponseShape, ResponseError>)
    ensures
        r == success_shape(field_count, success),
{
    match success_and_failure_parser(field_count, success) {
        Ok((message, data_field)) => Ok(ResponseShape { success: true, message, data_field, in_error_object: false }),
        Err(e) => Err(e),
    }
}

/// The body of the failed response of a variant; the `error` object is left
/// out where it would be empty.
pub fn create_failure(field_count: Option<usize>, failure: Failure) -> (r: Result<ResponseShape, ResponseError>)
    ensures
        r == failure_shape(field_count, failure),
{
    match success_and_failure_parser(field_count, failure) {
        Ok((message, data_field)) => {
            let in_error_object = message.is_some() || data_field.is_some();
            Ok(ResponseShape { success: false, message, data_field, in_error_object })
        },
        Err(e) => Err(e),
    }
}

/// A variant of an API response enum, as its attributes describe it.
#[derive(Clone, Debug, PartialEq, Eq)]
pub struct Variant {
    /// How many fields the variant has; `None` for a variant without a
    /// field list.
    pub field_count: Option<usize>,
    /// The status code set on the variant.
    pub status: Option<u16>,
    pub attribute: SuccessFailure,
}

/// The response of a variant: its status, with the status's name, and its
/// body.
#[derive(Clone, Debug, PartialEq, Eq)]
pub struct VariantResponse {
    pub status: u16,
    pub status_name: &'static str,
    pub shape: ResponseShape,
}

/// The status a variant answers with: the one set, else 200 for success and
/// 400 for failure.
pub open spec fn status_of(v: Variant) -> u16 {
    match v.status {
        Some(s) => s,
        None => match v.attribute {
            SuccessFailure::Success(_) => 200,
            SuccessFailure::Failure(_) => 400,
        },
    }
}

/// The body of the response of a variant.
pub open spec fn shape_of(v: Variant) -> Result<ResponseShape, ResponseError> {
    match v.attribute {
        SuccessFailure::Success(s) => success_shape(v.field_count, s),
        SuccessFailure::Failure(f) => failure_shape(v.field_count, f),
    }
}

/// Why the response of a variant cannot be built, if it cannot.
pub open spec fn response_error(v: Variant) -> Option<ResponseError> {
    if shape_of(v) is Err {
        Some(shape_of(v)->Err_0)
    } else if status_name(status_of(v)) is None {
        Some(ResponseError::UnknownStatus(status_of(v)))
    } else {
        None
    }
}

/// Whether `r` is the response of a variant whose response can be built.
pub open spec fn response_matches(v: Variant, r: VariantResponse) -> bool {
    &&& r.status == status_of(v)
    &&& Some(r.status_name@) == status_name(status_of(v))
    &&& r.shape == shape_of(v)->Ok_0
}

impl Variant {
    /// The response of the variant. A body that cannot be built is reported
    /// before an unknown status.
    pub fn to_response(self) -> (r: Result<VariantResponse, ResponseError>)
        ensures
            shape_of(self) is Err ==> r is Err && r->Err_0 == shape_of(self)->Err_0,
            shape_of(self) is Ok && status_name(status_of(self)) is None ==> r is Err
                && r->Err_0 == ResponseError::UnknownStatus(status_of(self)),
            shape_of(self) is Ok && status_name(status_of(self)) is Some ==> r is Ok
                && r->Ok_0.status == status_of(self)
                && Some(r->Ok_0.status_name@) == status_name(status_of(self))
                && r->Ok_0.shape == shape_of(self)->Ok_0,
            response_error(self) matches Some(e) ==> r is Err && r->Err_0 == e,
            response_error(self) is None ==> r is Ok && response_matches(self, r->Ok_0),
    {
        let status = match self.status {
            Some(s) => s,
            None => match &self.attribute {
                SuccessFailure::Success(_) => 200,
                SuccessFailure::Failure(_) => 400,
            },
        };
        let shape = match self.attribute {
            SuccessFailure::Success(s) => create_success(self.field_count, s),
            SuccessFailure::Failure(f) => create_failure(self.field_count, f),
        };
        let shape = match shape {
            Ok(s) => s,
            Err(e) => {
                return Err(e);
            },
        };
        match identifier(status) {
            Some(name) => Ok(VariantResponse { status, status_name: name, shape }),
            None => Err(ResponseError::UnknownStatus(status)),
        }
    }
}

} // verus!
