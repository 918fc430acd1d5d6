//! Root spans for inbound HTTP requests: which attributes a span is seeded
//! with when a request arrives, and which ones it receives once the outcome
//! of the request is known.
//!
//! A [`RootSpanBuilder`] is a strategy with two operations, one for the
//! start of a request and one for its end. [`DefaultRootSpanBuilder`] is the
//! standard one. Strategies work on a [`span::RootSpan`], which keeps every
//! write made to it; [`host`] reads outcomes from actix-web and hands the
//! writes to a tracing span.

pub mod attribute;
pub mod builder;
pub mod host;
pub mod laws;
pub mod outcome;
pub mod request;
pub mod span;

pub use builder::{DefaultRootSpanBuilder, RootSpanBuilder};
