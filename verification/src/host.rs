//! The strategy on the host's own values: the request and the outcome as
//! actix-web hands them over, and the span as tracing holds it.

use vstd::prelude::*;
use actix_web::dev::{ServiceRequest, ServiceResponse};
use actix_web::http::StatusCode;
use actix_web::{Error, HttpResponse};
use tracing::Span;
use crate::attribute::Value;
use crate::builder::{end_writes, DefaultRootSpanBuilder, RootSpanBuilder};
use crate::outcome::{Outcome, OutcomeView, ResponseError};
use crate::request::{option_text, Request, RequestView};
use crate::span::{Level, Phase, RootSpan};

verus! {

/// The request of a service, as actix-web hands it to a middleware.
#[verifier::external_type_specification]
#[verifier::external_body]
pub struct ExServiceRequest(ServiceRequest);

/// The response of a service, as actix-web hands it to a middleware.
#[verifier::external_type_specification]
#[verifier::external_body]
#[verifier::reject_recursive_types(B)]
pub struct ExServiceResponse<B>(ServiceResponse<B>);

/// The outgoing response of actix-web.
#[verifier::external_type_specification]
#[verifier::external_body]
#[verifier::reject_recursive_types(B)]
pub struct ExHttpResponse<B>(HttpResponse<B>);

/// The general error of actix-web.
#[verifier::external_type_specification]
#[verifier::external_body]
pub struct ExError(Error);

/// The HTTP status code that actix-web uses.
#[verifier::external_type_specification]
#[verifier::external_body]
pub struct ExStatusCode(StatusCode);

/// The handle of a span of tracing.
#[verifier::external_type_specification]
#[verifier::external_body]
pub struct ExSpan(Span);

/// The method of a request, as `ServiceRequest::method` and `Method::as_str`
/// give it.
pub uninterp spec fn method_of(request: ServiceRequest) -> Seq<char>;

/// The path of a request, as `ServiceRequest::path` gives it.
pub uninterp spec fn path_of(request: ServiceRequest) -> Seq<char>;

/// The pattern of the resource that the path of a request matches, as
/// `ServiceRequest::match_pattern` gives it; `None` where none matches.
pub uninterp spec fn pattern_of(request: ServiceRequest) -> Option<Seq<char>>;

/// `Method::as_str` on the method that `ServiceRequest::method` borrows, as
/// an owned string. The method is read from the head of the request and
/// from nothing else, so the text is the request's `method_of`.
#[verifier::external_body]
fn request_method(request: &ServiceRequest) -> (method: String)
    ensures
        method@ == method_of(*request),
{
    request.method().as_str().to_owned()
}

/// `ServiceRequest::path` borrows the path in the URI of the request. It is
/// read from the head of the request and from nothing else, so the text is
/// the request's `path_of`.
pub assume_specification<'a>[ ServiceRequest::path ](request: &'a ServiceRequest) -> (path:
    &'a str)
    ensures
        path@ == path_of(*request),
;

/// `ServiceRequest::match_pattern` gives the pattern of the resource that
/// the path of the request matches, if one does. It is found from the
/// request's path and from the resource map that the request carries, so it
/// is the request's `pattern_of`.
pub assume_specification[ ServiceRequest::match_pattern ](request: &ServiceRequest) -> (pattern:
    Option<String>)
    ensures
        option_text(pattern) == pattern_of(*request),
;

/// `ServiceResponse::response` borrows the response that the service
/// response wraps. Nothing is claimed of it.
pub assume_specification<B>[ ServiceResponse::<B>::response ](
    response: &ServiceResponse<B>,
) -> (inner: &HttpResponse<B>)
;

/// `ServiceResponse::status` gives the status code of the wrapped response.
/// Nothing is claimed of it.
pub assume_specification<B>[ ServiceResponse::<B>::status ](response: &ServiceResponse<B>) -> (code:
    StatusCode)
;

/// `HttpResponse::error` borrows the error that the response was built
/// from, if there is one. Nothing is claimed of it.
pub assume_specification<B>[ HttpResponse::<B>::error ](response: &HttpResponse<B>) -> (error:
    Option<&Error>)
;

/// `StatusCode::as_u16` gives the number of a status code. The type holds
/// only codes from 100 to 999.
pub assume_specification[ StatusCode::as_u16 ](code: &StatusCode) -> (number: u16)
    ensures
        100 <= number <= 999,
;

/// `ResponseError::status_code` on the error that `Error::as_response_error`
/// borrows: the status code that the error resolves to by itself. The method
/// is the error type's own code, which is taken to return; nothing is
/// claimed of the code it gives.
#[verifier::external_body]
fn error_status_code(error: &Error) -> (code: StatusCode) {
    error.as_response_error().status_code()
}

/// The `Display` rendering of the error that `Error::as_response_error`
/// borrows, as an owned string. The rendering is the error type's own code,
/// which is taken to return; nothing is claimed of the text.
#[verifier::external_body]
fn error_display(error: &Error) -> (text: String) {
    format!("{}", error.as_response_error())
}

/// The `Debug` rendering of the error that `Error::as_response_error`
/// borrows, as an owned string. The rendering is the error type's own code,
/// which is taken to return; nothing is claimed of the text.
#[verifier::external_body]
fn error_debug(error: &Error) -> (text: String) {
    format!("{:?}", error.as_response_error())
}

/// `Span::record` with an integer value. Whether the value reaches anyone
/// depends on the subscriber and on the fields that the span was created
/// with, so nothing is claimed.
#[verifier::external_body]
fn span_record_integer(span: &Span, name: &str, value: i32) {
    span.record(name, value);
}

/// `Span::record` with a text, handed over through `tracing::field::display`.
/// Whether the value reaches anyone depends on the subscriber and on the
/// fields that the span was created with, so nothing is claimed.
#[verifier::external_body]
fn span_record_text(span: &Span, name: &str, value: &str) {
    span.record(name, &tracing::field::display(value));
}

/// The numbers that a status code of the host can have.
pub open spec fn is_status_code(number: int) -> bool {
    100 <= number <= 999
}

/// What holds of every outcome that was read from the host: each status in
/// it is the number of a status code.
pub open spec fn read_from_host(outcome: OutcomeView) -> bool {
    match outcome {
        OutcomeView::PlainSuccess { status } => is_status_code(status),
        OutcomeView::SuccessWithEmbeddedError { status, error } => is_status_code(status)
            && is_status_code(error.status_code),
        OutcomeView::Failure { error } => is_status_code(error.status_code),
    }
}

/// What `read_request` makes of a request of the host and of the two values
/// that the host hands in with it. The route template is the pattern that
/// the request matches, never its path.
pub open spec fn request_read(
    request: ServiceRequest,
    client_address: Option<Seq<char>>,
    request_id: Option<Seq<char>>,
) -> RequestView {
    RequestView {
        method: method_of(request),
        path: path_of(request),
        route_template: pattern_of(request),
        client_address,
        request_id,
    }
}

/// Reads from a request of the host what seeds its span: the method, the
/// path, and the route template where a route matches. The client address
/// and the request identifier are handed in: the host takes both from what
/// is attached to the request, at a moment when nothing else holds the
/// request's extensions.
pub fn read_request(
    request: &ServiceRequest,
    client_address: Option<String>,
    request_id: Option<String>,
) -> (read: Request)
    ensures
        read@ == request_read(*request, option_text(client_address), option_text(request_id)),
{
    let method = request_method(request);
    let path = request.path().to_owned();
    let route_template = request.match_pattern();
    Request { method, path, route_template, client_address, request_id }
}

/// Reads from an error of the host what a span can hold of it: the status
/// code it resolves to, and its two renderings as finished strings.
pub fn describe_error(error: &Error) -> (described: ResponseError)
    ensures
        is_status_code(described@.status_code),
{
    let status_code = error_status_code(error).as_u16();
    let message = error_display(error);
    let details = error_debug(error);
    ResponseError { message, details, status_code }
}

/// Reads the outcome of a request from what the host hands over. A failure
/// of the pipeline is a `Failure`; a response is a success, with the error
/// it was built from where it has one, and under the status that the
/// response itself carries.
pub fn classify<B>(outcome: &Result<ServiceResponse<B>, Error>) -> (classified: Outcome)
    ensures
        outcome is Err <==> classified is Failure,
        read_from_host(classified@),
{
    match outcome {
        Ok(response) => {
            let embedded = response.response().error();
            let status = response.status().as_u16();
            let error = match embedded {
                Some(error) => Some(describe_error(error)),
                None => None,
            };
            Outcome::from_response(status, error)
        },
        Err(error) => Outcome::Failure { error: describe_error(error) },
    }
}

/// Hands every write of `model` to the live span, oldest first.
pub fn record_all(span: &Span, model: &RootSpan) {
    let writes = model.writes();
    let mut i: usize = 0;
    while i < writes.len()
        invariant
            i <= writes.len(),
        decreases writes.len() - i,
    {
        let write = &writes[i];
        match &write.value {
            Value::Integer(number) => span_record_integer(span, write.name.as_str(), *number),
            Value::Text(text) => span_record_text(span, write.name.as_str(), text.as_str()),
        }
        i = i + 1;
    }
}

/// Ends the live span of a request in the way of the default strategy: the
/// outcome is read from the host, the default strategy says what is to be
/// written, and the writes are handed to the span. Returns the writes made.
pub fn end_root_span<B>(span: Span, outcome: &Result<ServiceResponse<B>, Error>) -> (ended:
    RootSpan)
    ensures
        ended.phase() == Phase::Ended,
        ended.level() == DefaultRootSpanBuilder::level(),
        exists|classified: OutcomeView|
            (outcome is Err <==> classified is Failure) && read_from_host(classified) && ended@
                == #[trigger] end_writes(classified),
{
    let classified = classify(outcome);
    let mut model = RootSpan::new(Level::Info);
    DefaultRootSpanBuilder::on_request_end(&mut model, &classified);
    record_all(&span, &model);
    assert(model@ =~= end_writes(classified@));
    model
}

} // verus!
