//! What a request is answered that cannot be served.

use vstd::prelude::*;

use crate::anthropic::responses::{map_request, mapped_request, MappedRequest, MappedView, ResponsesRequest};
use crate::anthropic::types::{invalid, ErrorView, RequestError};
use crate::text::{contains, join2, lower_case, maybe_text, occurs_in};

verus! {

/// The status of a reply to a request that is at fault.
pub const BAD_REQUEST: u16 = 400;

/// The status of a reply where the service is at fault.
pub const INTERNAL_SERVER_ERROR: u16 = 500;

/// The status of a reply where the backend is at fault.
pub const BAD_GATEWAY: u16 = 502;

/// The status of a reply where there is no backend.
pub const SERVICE_UNAVAILABLE: u16 = 503;

/// An error as a client is told of it.
#[derive(Debug)]
pub struct OpenAiError {
    pub message: String,
    pub error_type: String,
    pub param: Option<String>,
    pub code: Option<String>,
}

/// A reply to a request that cannot be served.
#[derive(Debug)]
pub struct ErrorReply {
    pub status: u16,
    pub error: OpenAiError,
}

/// A reply as plain values.
pub struct ReplyView {
    pub status: u16,
    pub error_type: Seq<char>,
    pub error: ErrorView,
}

impl View for ErrorReply {
    type V = ReplyView;

    open spec fn view(&self) -> ReplyView {
        ReplyView {
            status: self.status,
            error_type: self.error.error_type@,
            error: ErrorView {
                message: self.error.message@,
                param: maybe_text(self.error.param),
                code: maybe_text(self.error.code),
            },
        }
    }
}

/// The reply to a request that is at fault.
pub open spec fn request_reply(status: u16, error: ErrorView) -> ReplyView {
    ReplyView { status, error_type: "invalid_request_error"@, error }
}

/// The reply where the request is not at fault.
pub open spec fn service_reply(status: u16, message: Seq<char>) -> ReplyView {
    ReplyView {
        status,
        error_type: "api_error"@,
        error: ErrorView { message, param: None, code: None },
    }
}

/// The reply to a request that the backend refused with a message: one that is too long is
/// at fault.
pub open spec fn provider_reply(message: Seq<char>) -> ReplyView {
    if occurs_in(message, "CONTENT_LENGTH_EXCEEDS_THRESHOLD"@) {
        request_reply(
            BAD_REQUEST,
            invalid("Context window is full. Reduce the input size."@, "input"@),
        )
    } else if occurs_in(message, "Input is too long"@) {
        request_reply(
            BAD_REQUEST,
            invalid("Input is too long. Reduce the input size."@, "input"@),
        )
    } else {
        service_reply(BAD_GATEWAY, "Upstream API request failed: "@ + message)
    }
}

/// Why a request could not be turned into one of the backend.
#[derive(Debug)]
pub enum ConversionError {
    UnsupportedModel(String),
    EmptyMessages,
}

/// What is wrong with a request that could not be turned into one of the backend.
pub open spec fn conversion_problem(error: ConversionError) -> ErrorView {
    invalid(
        match error {
            ConversionError::UnsupportedModel(model) => "Unsupported model: "@ + model@,
            ConversionError::EmptyMessages => "Input must contain at least one user message"@,
        },
        "input"@,
    )
}

/// What becomes of a request: it has to be readable, there has to be a backend, and the
/// request has to be one that can be mapped.
pub open spec fn admitted(
    request: Result<ResponsesRequest, String>,
    configured: bool,
) -> Result<MappedView, ReplyView> {
    match request {
        Err(error) => Err(
            request_reply(BAD_REQUEST, invalid("Invalid JSON request: "@ + error@, "body"@)),
        ),
        Ok(request) => if !configured {
            Err(service_reply(SERVICE_UNAVAILABLE, "Kiro API provider not configured"@))
        } else {
            match mapped_request(request@, lower_case(request.model@)) {
                Ok(mapped) => Ok(mapped),
                Err(error) => Err(request_reply(BAD_REQUEST, error)),
            }
        },
    }
}

/// A refused request is answered with a status of its own fault only where the request is
/// at fault: a request that reaches no backend is not.
pub proof fn law_refusal_names_the_fault(
    request: Result<ResponsesRequest, String>,
    configured: bool,
)
    requires
        admitted(request, configured) is Err,
    ensures
        admitted(request, configured)->Err_0.status == if request is Ok && !configured {
            SERVICE_UNAVAILABLE
        } else {
            BAD_REQUEST
        },
{
}

/// The reply to a request that is at fault.
pub fn error_response(status: u16, error: RequestError) -> (r: ErrorReply)
    ensures
        r@ == request_reply(status, error@),
{
    ErrorReply {
        status,
        error: OpenAiError {
            message: error.message,
            error_type: "invalid_request_error".to_owned(),
            param: error.param,
            code: error.code,
        },
    }
}

/// The reply where the request is not at fault.
pub fn api_error(status: u16, message: &str) -> (r: ErrorReply)
    ensures
        r@ == service_reply(status, message@),
{
    ErrorReply {
        status,
        error: OpenAiError {
            message: message.to_owned(),
            error_type: "api_error".to_owned(),
            param: None,
            code: None,
        },
    }
}

/// The reply to a request that the backend refused with a message.
pub fn map_provider_error(message: &str) -> (r: ErrorReply)
    ensures
        r@ == provider_reply(message@),
{
    if contains(message, "CONTENT_LENGTH_EXCEEDS_THRESHOLD") {
        return error_response(
            BAD_REQUEST,
            RequestError::new("Context window is full. Reduce the input size.", "input"),
        );
    }
    if contains(message, "Input is too long") {
        return error_response(
            BAD_REQUEST,
            RequestError::new("Input is too long. Reduce the input size.", "input"),
        );
    }
    api_error(BAD_GATEWAY, join2("Upstream API request failed: ", message).as_str())
}

/// The reply to a request that could not be turned into one of the backend.
pub fn map_conversion_error(error: &ConversionError) -> (r: ErrorReply)
    ensures
        r@ == request_reply(BAD_REQUEST, conversion_problem(*error)),
{
    let problem = match error {
        ConversionError::UnsupportedModel(model) => RequestError::new(
            join2("Unsupported model: ", model.as_str()).as_str(),
            "input",
        ),
        ConversionError::EmptyMessages => RequestError::new(
            "Input must contain at least one user message",
            "input",
        ),
    };
    error_response(BAD_REQUEST, problem)
}

/// The reply where the request of the backend could not be written.
pub fn unwritable(error: &str) -> (r: ErrorReply)
    ensures
        r@ == service_reply(INTERNAL_SERVER_ERROR, "Failed to serialize request: "@ + error@),
{
    api_error(INTERNAL_SERVER_ERROR, join2("Failed to serialize request: ", error).as_str())
}

/// The reply where the answer of the backend could not be received.
pub fn unreceived(error: &str) -> (r: ErrorReply)
    ensures
        r@ == service_reply(BAD_GATEWAY, "Failed to read upstream response: "@ + error@),
{
    api_error(BAD_GATEWAY, join2("Failed to read upstream response: ", error).as_str())
}

/// What becomes of a request: what the backend takes for it, or the reply.
pub fn accept(request: Result<ResponsesRequest, String>, configured: bool) -> (r: Result<
    MappedRequest,
    ErrorReply,
>)
    ensures
        match admitted(request, configured) {
            Ok(mapped) => r matches Ok(found) && found@ == mapped,
            Err(reply) => r matches Err(found) && found@ == reply,
        },
{
    let request = match request {
        Ok(request) => request,
        Err(error) => {
            return Err(
                error_response(
                    BAD_REQUEST,
                    RequestError::new(
                        join2("Invalid JSON request: ", error.as_str()).as_str(),
                        "body",
                    ),
                ),
            );
        },
    };
    if !configured {
        return Err(api_error(SERVICE_UNAVAILABLE, "Kiro API provider not configured"));
    }
    match map_request(request) {
        Ok(mapped) => Ok(mapped),
        Err(error) => Err(error_response(BAD_REQUEST, error)),
    }
}

} // verus!
