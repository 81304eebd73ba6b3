use vstd::prelude::*;

verus! {

/// The error taxonomy of the responder, with the wire mapping below:
/// malformed or incomplete input is a validation failure (400), an
/// unhandled request body type is 415, a patch whose target is absent is
/// 404, and a store or backend failure surfaced to the caller is 500.
#[derive(Clone, Copy, Debug, PartialEq, Eq, Structural)]
pub enum AppError {
    InvalidJson,
    InvalidMultipart,
    MissingFields,
    EmptyPatch,
    UnsupportedMediaType,
    MockNotFound,
    Internal,
}

pub open spec fn spec_status_of_error(e: AppError) -> u16 {
    match e {
        AppError::InvalidJson => 400,
        AppError::InvalidMultipart => 400,
        AppError::MissingFields => 400,
        AppError::EmptyPatch => 400,
        AppError::UnsupportedMediaType => 415,
        AppError::MockNotFound => 404,
        AppError::Internal => 500,
    }
}

pub fn status_of_error(e: &AppError) -> (s: u16)
    ensures
        s == spec_status_of_error(*e),
{
    match e {
        AppError::InvalidJson => 400,
        AppError::InvalidMultipart => 400,
        AppError::MissingFields => 400,
        AppError::EmptyPatch => 400,
        AppError::UnsupportedMediaType => 415,
        AppError::MockNotFound => 404,
        AppError::Internal => 500,
    }
}

pub open spec fn spec_error_message(e: AppError) -> Seq<char> {
    match e {
        AppError::InvalidJson => "invalid json"@,
        AppError::InvalidMultipart => "invalid multipart"@,
        AppError::MissingFields => "missing fields"@,
        AppError::EmptyPatch => "no updatable fields provided"@,
        AppError::UnsupportedMediaType => "unsupported content-type"@,
        AppError::MockNotFound => "mock not found"@,
        AppError::Internal => "internal"@,
    }
}

pub fn error_message(e: &AppError) -> (r: String)
    ensures
        r@ == spec_error_message(*e),
{
    match e {
        AppError::InvalidJson => String::from_str("invalid json"),
        AppError::InvalidMultipart => String::from_str("invalid multipart"),
        AppError::MissingFields => String::from_str("missing fields"),
        AppError::EmptyPatch => String::from_str("no updatable fields provided"),
        AppError::UnsupportedMediaType => String::from_str("unsupported content-type"),
        AppError::MockNotFound => String::from_str("mock not found"),
        AppError::Internal => String::from_str("internal"),
    }
}

/// The JSON body an error is reported with.
pub open spec fn spec_error_body(e: AppError) -> Seq<char> {
    "{\"error\":\""@ + spec_error_message(e) + "\"}"@
}

pub fn error_body(e: &AppError) -> (r: String)
    ensures
        r@ == spec_error_body(*e),
{
    let mut r: String = String::from_str("{\"error\":\"");
    let msg = error_message(e);
    r.append(msg.as_str());
    r.append("\"}");
    r
}

} // verus!
