//! What the start of a request hands to a span strategy.

use vstd::prelude::*;

verus! {

/// The part of an inbound request that seeds its root span.
#[derive(Clone, Debug, PartialEq, Eq)]
pub struct Request {
    /// The HTTP method, as it is written on the request line.
    pub method: String,
    /// The path of the request, with the values it resolved to.
    pub path: String,
    /// The route template that matched, placeholders unresolved; `None`
    /// where no route matched.
    pub route_template: Option<String>,
    /// The client's network address, where it is known.
    pub client_address: Option<String>,
    /// The identifier that was attached to the request before it reached the
    /// strategy, where one was. A strategy hands it on as it is and never
    /// makes one up.
    pub request_id: Option<String>,
}

/// Mathematical model of a [`Request`].
pub ghost struct RequestView {
    pub method: Seq<char>,
    pub path: Seq<char>,
    pub route_template: Option<Seq<char>>,
    pub client_address: Option<Seq<char>>,
    pub request_id: Option<Seq<char>>,
}

/// Model of an optional string.
pub open spec fn option_text(text: Option<String>) -> Option<Seq<char>> {
    match text {
        Some(s) => Some(s@),
        None => None,
    }
}

impl View for Request {
    type V = RequestView;

    open spec fn view(&self) -> RequestView {
        RequestView {
            method: self.method@,
            path: self.path@,
            route_template: option_text(self.route_template),
            client_address: option_text(self.client_address),
            request_id: option_text(self.request_id),
        }
    }
}

} // verus!
