//! Span strategies: what is written to the root span when a request starts
//! and when it ends.

use vstd::prelude::*;
use crate::attribute::{
    AttributeView, Value, ValueView, CLIENT_IP, ENDPOINT, EXCEPTION_DETAILS, EXCEPTION_MESSAGE,
    METHOD, REQUEST_ID, STATUS,
};
use crate::outcome::{Outcome, OutcomeView, ResponseError, ResponseErrorView};
use crate::request::{Request, RequestView};
use crate::span::{Level, Phase, RootSpan};

verus! {

/// A strategy for the root span of a request. The host calls
/// `on_request_start` once before it dispatches the request, keeps the span
/// while the request is processed, and calls `on_request_end` once with the
/// outcome. A strategy holds no state of its own.
pub trait RootSpanBuilder {
    /// Creates the span of a request. The span is returned started.
    fn on_request_start(request: &Request) -> (span: RootSpan)
        ensures
            span.phase() == Phase::Started,
    ;

    /// Writes what is known at the end of the request and ends the span.
    /// Whatever was written before stays, and the level is kept. The span
    /// must not have been ended before.
    fn on_request_end(span: &mut RootSpan, outcome: &Outcome)
        requires
            old(span).phase() == Phase::Started,
        ensures
            final(span).phase() == Phase::Ended,
            final(span).level() == old(span).level(),
            old(span)@.is_prefix_of(final(span)@),
    ;
}

/// The write of a text under `name`, or none where the text is absent.
pub open spec fn optional_write(name: Seq<char>, text: Option<Seq<char>>) -> Seq<AttributeView> {
    match text {
        Some(t) => seq![AttributeView { name, value: ValueView::Text(t) }],
        None => Seq::empty(),
    }
}

/// The writes that seed the span of `request`: the method, then the route
/// template, the client address and the request identifier, each where the
/// request has it.
pub open spec fn start_writes(request: RequestView) -> Seq<AttributeView> {
    seq![AttributeView { name: METHOD@, value: ValueView::Text(request.method) }]
        + optional_write(ENDPOINT@, request.route_template)
        + optional_write(CLIENT_IP@, request.client_address)
        + optional_write(REQUEST_ID@, request.request_id)
}

/// The writes that describe an error under a status code: the message, the
/// details and the status, in this order.
pub open spec fn error_writes(status_code: int, error: ResponseErrorView) -> Seq<AttributeView> {
    seq![
        AttributeView { name: EXCEPTION_MESSAGE@, value: ValueView::Text(error.message) },
        AttributeView { name: EXCEPTION_DETAILS@, value: ValueView::Text(error.details) },
        AttributeView { name: STATUS@, value: ValueView::Integer(status_code) },
    ]
}

/// The writes that end the span of a request with the given outcome. A
/// response that carries an error is described under the status that the
/// response has, not under the one the error would resolve to.
pub open spec fn end_writes(outcome: OutcomeView) -> Seq<AttributeView> {
    match outcome {
        OutcomeView::PlainSuccess { status } => seq![
            AttributeView { name: STATUS@, value: ValueView::Integer(status) },
        ],
        OutcomeView::SuccessWithEmbeddedError { status, error } => error_writes(status, error),
        OutcomeView::Failure { error } => error_writes(error.status_code, error),
    }
}

/// The default strategy. At the start it writes the method, the route
/// template, the client address and the request identifier that came with
/// the request; at the end the status code and, where the outcome carries an
/// error, the error's message and details.
pub struct DefaultRootSpanBuilder;

impl DefaultRootSpanBuilder {
    /// The level of every span that the default strategy creates.
    pub open spec fn level() -> Level {
        Level::Info
    }
}

impl RootSpanBuilder for DefaultRootSpanBuilder {
    fn on_request_start(request: &Request) -> (span: RootSpan)
        ensures
            span.level() == DefaultRootSpanBuilder::level(),
            span@ == start_writes(request@),
    {
        let mut span = RootSpan::new(Level::Info);
        span.record(METHOD, Value::Text(request.method.clone()));
        if let Some(template) = &request.route_template {
            span.record(ENDPOINT, Value::Text(template.clone()));
        }
        if let Some(address) = &request.client_address {
            span.record(CLIENT_IP, Value::Text(address.clone()));
        }
        if let Some(id) = &request.request_id {
            span.record(REQUEST_ID, Value::Text(id.clone()));
        }
        assert(span@ =~= start_writes(request@));
        span
    }

    fn on_request_end(span: &mut RootSpan, outcome: &Outcome)
        ensures
            final(span)@ == old(span)@ + end_writes(outcome@),
    {
        match outcome {
            Outcome::PlainSuccess { status } => {
                let code: i32 = *status as i32;
                span.record(STATUS, Value::Integer(code));
            },
            Outcome::SuccessWithEmbeddedError { status, error } => {
                handle_error(span, *status, error);
            },
            Outcome::Failure { error } => {
                handle_error(span, error.status_code, error);
            },
        }
        span.end();
        assert(span@ =~= old(span)@ + end_writes(outcome@));
    }
}

/// Describes an error on the span: the message and the details, both taken
/// as finished strings before anything is written, then the status code.
pub fn handle_error(span: &mut RootSpan, status_code: u16, response_error: &ResponseError)
    requires
        old(span).phase() == Phase::Started,
    ensures
        final(span)@ == old(span)@ + error_writes(status_code as int, response_error@),
        final(span).level() == old(span).level(),
        final(span).phase() == Phase::Started,
{
    let display = response_error.message.clone();
    let debug = response_error.details.clone();
    span.record(EXCEPTION_MESSAGE, Value::Text(display));
    span.record(EXCEPTION_DETAILS, Value::Text(debug));
    let code: i32 = status_code as i32;
    span.record(STATUS, Value::Integer(code));
    assert(span@ =~= old(span)@ + error_writes(status_code as int, response_error@));
}

} // verus!
