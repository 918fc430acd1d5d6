//! Span attributes: the stable field names and the values written under them.

use vstd::prelude::*;

verus! {

/// Field that holds the HTTP method of the request.
pub const METHOD: &'static str = "method";

/// Field that holds the matched route template.
pub const ENDPOINT: &'static str = "endpoint";

/// Field that holds the client's network address.
pub const CLIENT_IP: &'static str = "client_ip";

/// Field that holds the numeric status code of the outcome.
pub const STATUS: &'static str = "status";

/// Field that holds the request identifier.
pub const REQUEST_ID: &'static str = "request_id";

/// Field that holds the error's human-facing message.
pub const EXCEPTION_MESSAGE: &'static str = "exception.message";

/// Field that holds the error's verbose diagnostic text.
pub const EXCEPTION_DETAILS: &'static str = "exception.details";

/// A value written under a field name.
#[derive(Clone, Debug, PartialEq, Eq)]
pub enum Value {
    Integer(i32),
    Text(String),
}

/// Mathematical model of a [`Value`].
pub ghost enum ValueView {
    Integer(int),
    Text(Seq<char>),
}

impl View for Value {
    type V = ValueView;

    open spec fn view(&self) -> ValueView {
        match *self {
            Value::Integer(n) => ValueView::Integer(n as int),
            Value::Text(s) => ValueView::Text(s@),
        }
    }
}

/// One write to a span: a field name and the value recorded under it.
#[derive(Clone, Debug, PartialEq, Eq)]
pub struct Attribute {
    pub name: String,
    pub value: Value,
}

/// Mathematical model of an [`Attribute`].
pub ghost struct AttributeView {
    pub name: Seq<char>,
    pub value: ValueView,
}

impl View for Attribute {
    type V = AttributeView;

    open spec fn view(&self) -> AttributeView {
        AttributeView { name: self.name@, value: self.value@ }
    }
}

/// The seven field names are pairwise different.
pub proof fn lemma_field_names_distinct()
    ensures
        METHOD@ != ENDPOINT@,
        METHOD@ != CLIENT_IP@,
        METHOD@ != STATUS@,
        METHOD@ != REQUEST_ID@,
        METHOD@ != EXCEPTION_MESSAGE@,
        METHOD@ != EXCEPTION_DETAILS@,
        ENDPOINT@ != CLIENT_IP@,
        ENDPOINT@ != STATUS@,
        ENDPOINT@ != REQUEST_ID@,
        ENDPOINT@ != EXCEPTION_MESSAGE@,
        ENDPOINT@ != EXCEPTION_DETAILS@,
        CLIENT_IP@ != STATUS@,
        CLIENT_IP@ != REQUEST_ID@,
        CLIENT_IP@ != EXCEPTION_MESSAGE@,
        CLIENT_IP@ != EXCEPTION_DETAILS@,
        STATUS@ != REQUEST_ID@,
        STATUS@ != EXCEPTION_MESSAGE@,
        STATUS@ != EXCEPTION_DETAILS@,
        REQUEST_ID@ != EXCEPTION_MESSAGE@,
        REQUEST_ID@ != EXCEPTION_DETAILS@,
        EXCEPTION_MESSAGE@ != EXCEPTION_DETAILS@,
{
    reveal_strlit("method");
    reveal_strlit("endpoint");
    reveal_strlit("client_ip");
    reveal_strlit("status");
    reveal_strlit("request_id");
    reveal_strlit("exception.message");
    reveal_strlit("exception.details");
    assert(METHOD@.len() == 6 && STATUS@.len() == 6);
    assert(ENDPOINT@.len() == 8);
    assert(CLIENT_IP@.len() == 9);
    assert(REQUEST_ID@.len() == 10);
    assert(EXCEPTION_MESSAGE@.len() == 17 && EXCEPTION_DETAILS@.len() == 17);
    assert(METHOD@[0] == 'm' && STATUS@[0] == 's');
    assert(EXCEPTION_MESSAGE@[10] == 'm' && EXCEPTION_DETAILS@[10] == 'd');
}

} // verus!
