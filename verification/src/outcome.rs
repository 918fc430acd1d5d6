//! What the end of a request hands to a span strategy.

use vstd::prelude::*;

verus! {

/// What an error exposes to the span: its two renderings, taken as finished
/// strings, and the status code it resolves to by itself.
#[derive(Clone, Debug, PartialEq, Eq)]
pub struct ResponseError {
    /// The concise, human-facing message.
    pub message: String,
    /// The verbose diagnostic text.
    pub details: String,
    /// The status code the error resolves to when nothing overrides it.
    pub status_code: u16,
}

/// Mathematical model of a [`ResponseError`].
pub ghost struct ResponseErrorView {
    pub message: Seq<char>,
    pub details: Seq<char>,
    pub status_code: int,
}

impl View for ResponseError {
    type V = ResponseErrorView;

    open spec fn view(&self) -> ResponseErrorView {
        ResponseErrorView {
            message: self.message@,
            details: self.details@,
            status_code: self.status_code as int,
        }
    }
}

/// How the processing of a request ended.
#[derive(Clone, Debug, PartialEq, Eq)]
pub enum Outcome {
    /// A response was built and stands for no error.
    PlainSuccess { status: u16 },
    /// A response was built, with the status it now carries, and stands for
    /// an error.
    SuccessWithEmbeddedError { status: u16, error: ResponseError },
    /// No response was built.
    Failure { error: ResponseError },
}

/// Mathematical model of an [`Outcome`].
pub ghost enum OutcomeView {
    PlainSuccess { status: int },
    SuccessWithEmbeddedError { status: int, error: ResponseErrorView },
    Failure { error: ResponseErrorView },
}

impl View for Outcome {
    type V = OutcomeView;

    open spec fn view(&self) -> OutcomeView {
        match *self {
            Outcome::PlainSuccess { status } => OutcomeView::PlainSuccess { status: status as int },
            Outcome::SuccessWithEmbeddedError { status, error } => {
                OutcomeView::SuccessWithEmbeddedError { status: status as int, error: error@ }
            },
            Outcome::Failure { error } => OutcomeView::Failure { error: error@ },
        }
    }
}

/// The outcome that a response with the given status stands for: a plain
/// success, or a success that carries the error the response was built from.
pub open spec fn response_outcome(status: int, error: Option<ResponseErrorView>) -> OutcomeView {
    match error {
        Some(error) => OutcomeView::SuccessWithEmbeddedError { status, error },
        None => OutcomeView::PlainSuccess { status },
    }
}

impl Outcome {
    /// The outcome of a request that ended with a response of the given
    /// status, built from `error` where there is one.
    pub fn from_response(status: u16, error: Option<ResponseError>) -> (outcome: Outcome)
        ensures
            outcome@ == response_outcome(
                status as int,
                match error {
                    Some(e) => Some(e@),
                    None => None,
                },
            ),
    {
        match error {
            Some(error) => Outcome::SuccessWithEmbeddedError { status, error },
            None => Outcome::PlainSuccess { status },
        }
    }
}

impl OutcomeView {
    /// The error that the outcome carries, if it carries one.
    pub open spec fn error(self) -> Option<ResponseErrorView> {
        match self {
            OutcomeView::PlainSuccess { .. } => None,
            OutcomeView::SuccessWithEmbeddedError { error, .. } => Some(error),
            OutcomeView::Failure { error } => Some(error),
        }
    }

    /// The status code that belongs on the span: that of the response where
    /// one was built, else the one the error resolves to.
    pub open spec fn status(self) -> int {
        match self {
            OutcomeView::PlainSuccess { status } => status,
            OutcomeView::SuccessWithEmbeddedError { status, .. } => status,
            OutcomeView::Failure { error } => error.status_code,
        }
    }
}

} // verus!
