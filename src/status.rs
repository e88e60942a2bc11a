use vstd::prelude::*;

verus! {

/// The name of the response status with code `status`, for the codes that
/// API responses may use.
pub open spec fn status_name(status: u16) -> Option<Seq<char>> {
    match status {
        100 => Some("Continue"@),
        101 => Some("SwitchingProtocols"@),
        102 => Some("Processing"@),
        200 => Some("Ok"@),
        201 => Some("Created"@),
        202 => Some("Accepted"@),
        203 => Some("NonAuthoritativeInformation"@),
        204 => Some("NoContent"@),
        205 => Some("ResetContent"@),
        206 => Some("PartialContent"@),
        207 => Some("MultiStatus"@),
        208 => Some("AlreadyReported"@),
        300 => Some("MultipleChoices"@),
        301 => Some("MovedPermanently"@),
        302 => Some("Found"@),
        303 => Some("SeeOther"@),
        304 => Some("NotModified"@),
        305 => Some("UseProxy"@),
        307 => Some("TemporaryRedirect"@),
        308 => Some("PermanentRedirect"@),
        400 => Some("BadRequest"@),
        404 => Some("NotFound"@),
        401 => Some("Unauthorized"@),
        402 => Some("PaymentRequired"@),
        403 => Some("Forbidden"@),
        405 => Some("MethodNotAllowed"@),
        406 => Some("NotAcceptable"@),
        407 => Some("ProxyAuthenticationRequired"@),
        408 => Some("RequestTimeout"@),
        409 => Some("Conflict"@),
        410 => Some("Gone"@),
        411 => Some("LengthRequired"@),
        412 => Some("PreconditionFailed"@),
        428 => Some("PreconditionRequired"@),
        413 => Some("PayloadTooLarge"@),
        414 => Some("UriTooLong"@),
        415 => Some("UnsupportedMediaType"@),
        416 => Some("RangeNotSatisfiable"@),
        417 => Some("ExpectationFailed"@),
        422 => Some("UnprocessableEntity"@),
        429 => Some("TooManyRequests"@),
        431 => Some("RequestHeaderFieldsTooLarge"@),
        451 => Some("UnavailableForLegalReasons"@),
        500 => Some("InternalServerError"@),
        501 => Some("NotImplemented"@),
        502 => Some("BadGateway"@),
        503 => Some("ServiceUnavailable"@),
        504 => Some("GatewayTimeout"@),
        505 => Some("VersionNotSupported"@),
        506 => Some("VariantAlsoNegotiates"@),
        507 => Some("InsufficientStorage"@),
        508 => Some("LoopDetected"@),
        _ => None,
    }
}

/// The name of the response status with code `status` (`Ok` for 200,
/// `NotFound` for 404), or `None` for a code that API responses do not use.
pub fn identifier(status: u16) -> (r: Option<&'static str>)
    ensures
        r is Some <==> status_name(status) is Some,
        r matches Some(n) ==> status_name(status) == Some(n@),
{
    match status {
        100 => Some("Continue"),
        101 => Some("SwitchingProtocols"),
        102 => Some("Processing"),
        200 => Some("Ok"),
        201 => Some("Created"),
        202 => Some("Accepted"),
        203 => Some("NonAuthoritativeInformation"),
        204 => Some("NoContent"),
        205 => Some("ResetContent"),
        206 => Some("PartialContent"),
        207 => Some("MultiStatus"),
        208 => Some("AlreadyReported"),
        300 => Some("MultipleChoices"),
        301 => Some("MovedPermanently"),
        302 => Some("Found"),
        303 => Some("SeeOther"),
        304 => Some("NotModified"),
        305 => Some("UseProxy"),
        307 => Some("TemporaryRedirect"),
        308 => Some("PermanentRedirect"),
        400 => Some("BadRequest"),
        404 => Some("NotFound"),
        401 => Some("Unauthorized"),
        402 => Some("PaymentRequired"),
        403 => Some("Forbidden"),
        405 => Some("MethodNotAllowed"),
        406 => Some("NotAcceptable"),
        407 => Some("ProxyAuthenticationRequired"),
        408 => Some("RequestTimeout"),
        409 => Some("Conflict"),
        410 => Some("Gone"),
        411 => Some("LengthRequired"),
        412 => Some("PreconditionFailed"),
        428 => Some("PreconditionRequired"),
        413 => Some("PayloadTooLarge"),
        414 => Some("UriTooLong"),
        415 => Some("UnsupportedMediaType"),
        416 => Some("RangeNotSatisfiable"),
        417 => Some("ExpectationFailed"),
        422 => Some("UnprocessableEntity"),
        429 => Some("TooManyRequests"),
        431 => Some("RequestHeaderFieldsTooLarge"),
        451 => Some("UnavailableForLegalReasons"),
        500 => Some("InternalServerError"),
        501 => Some("NotImplemented"),
        502 => Some("BadGateway"),
        503 => Some("ServiceUnavailable"),
        504 => Some("GatewayTimeout"),
        505 => Some("VersionNotSupported"),
        506 => Some("VariantAlsoNegotiates"),
        507 => Some("InsufficientStorage"),
        508 => Some("LoopDetected"),
        _ => None,
    }
}

} // verus!
