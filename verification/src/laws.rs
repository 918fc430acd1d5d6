//! What holds of every span that the default strategy has written to.

use vstd::prelude::*;
use crate::attribute::{
    lemma_field_names_distinct, AttributeView, ValueView, CLIENT_IP, ENDPOINT, EXCEPTION_DETAILS,
    EXCEPTION_MESSAGE, METHOD, REQUEST_ID, STATUS,
};
use crate::builder::{end_writes, optional_write, start_writes};
use crate::outcome::{OutcomeView, ResponseErrorView};
use crate::request::RequestView;
use crate::span::{count_writes, fields_of, lemma_fields_of_push};

verus! {

/// Writes made after others overwrite the fields they name and leave the
/// other fields as they were.
pub proof fn lemma_fields_of_concat(before: Seq<AttributeView>, after: Seq<AttributeView>)
    ensures
        fields_of(before + after) == fields_of(before).union_prefer_right(fields_of(after)),
    decreases after.len(),
{
    if after.len() == 0 {
        assert(before + after =~= before);
        assert(fields_of(before) =~= fields_of(before).union_prefer_right(fields_of(after)));
    } else {
        let front = after.drop_last();
        let last = after.last();
        lemma_fields_of_concat(before, front);
        assert(before + after =~= (before + front).push(last));
        lemma_fields_of_push(before + front, last);
        assert(fields_of(before + after) =~= fields_of(before).union_prefer_right(
            fields_of(after),
        ));
    }
}

/// The fields that the writes at the end of a request set: the status, and
/// the two exception fields exactly when the outcome carries an error.
pub proof fn lemma_end_fields(outcome: OutcomeView)
    ensures
        fields_of(end_writes(outcome)) == match outcome.error() {
            Some(error) => Map::<Seq<char>, ValueView>::empty().insert(
                EXCEPTION_MESSAGE@,
                ValueView::Text(error.message),
            ).insert(EXCEPTION_DETAILS@, ValueView::Text(error.details)).insert(
                STATUS@,
                ValueView::Integer(outcome.status()),
            ),
            None => Map::<Seq<char>, ValueView>::empty().insert(
                STATUS@,
                ValueView::Integer(outcome.status()),
            ),
        },
{
    reveal_with_fuel(fields_of, 4);
    let writes = end_writes(outcome);
    if writes.len() == 3 {
        assert(writes.drop_last().drop_last().drop_last() =~= Seq::<AttributeView>::empty());
    } else {
        assert(writes.drop_last() =~= Seq::<AttributeView>::empty());
    }
}

/// The fields that an optional write sets: the one it names, where the text
/// is there, and none where it is not.
pub proof fn lemma_optional_write_fields(name: Seq<char>, text: Option<Seq<char>>)
    ensures
        fields_of(optional_write(name, text)) == match text {
            Some(t) => Map::<Seq<char>, ValueView>::empty().insert(name, ValueView::Text(t)),
            None => Map::<Seq<char>, ValueView>::empty(),
        },
{
    reveal_with_fuel(fields_of, 2);
    let writes = optional_write(name, text);
    if text is Some {
        assert(writes.drop_last() =~= Seq::<AttributeView>::empty());
    }
}

/// The value that a field of a started span holds: the text that the
/// request has for it, and nothing where the request has none.
pub open spec fn seeded(
    fields: Map<Seq<char>, ValueView>,
    name: Seq<char>,
    text: Option<Seq<char>>,
) -> bool {
    match text {
        Some(t) => fields.contains_key(name) && fields[name] == ValueView::Text(t),
        None => !fields.contains_key(name),
    }
}

/// The fields that the writes at the start of a request set: the method,
/// and the route template, the client address and the request identifier
/// where the request has them. No other field is set.
pub proof fn lemma_start_fields(request: RequestView)
    ensures
        ({
            let fields = fields_of(start_writes(request));
            &&& seeded(fields, METHOD@, Some(request.method))
            &&& seeded(fields, ENDPOINT@, request.route_template)
            &&& seeded(fields, CLIENT_IP@, request.client_address)
            &&& seeded(fields, REQUEST_ID@, request.request_id)
            &&& forall|name: Seq<char>| #[trigger]
                fields.contains_key(name) ==> name == METHOD@ || name == ENDPOINT@ || name
                    == CLIENT_IP@ || name == REQUEST_ID@
        }),
{
    lemma_field_names_distinct();
    let method = optional_write(METHOD@, Some(request.method));
    let endpoint = optional_write(ENDPOINT@, request.route_template);
    let client = optional_write(CLIENT_IP@, request.client_address);
    let id = optional_write(REQUEST_ID@, request.request_id);
    assert(start_writes(request) =~= method + endpoint + client + id);
    lemma_optional_write_fields(METHOD@, Some(request.method));
    lemma_optional_write_fields(ENDPOINT@, request.route_template);
    lemma_optional_write_fields(CLIENT_IP@, request.client_address);
    lemma_optional_write_fields(REQUEST_ID@, request.request_id);
    lemma_fields_of_concat(method, endpoint);
    lemma_fields_of_concat(method + endpoint, client);
    lemma_fields_of_concat(method + endpoint + client, id);
}

/// A request that ends with a response that stands for no error: the span
/// holds the status of the response, and neither exception field is set.
pub proof fn law_plain_success_sets_status_alone(request: RequestView, status: int)
    ensures
        ({
            let fields = fields_of(
                start_writes(request) + end_writes(OutcomeView::PlainSuccess { status }),
            );
            &&& fields.contains_key(STATUS@) && fields[STATUS@] == ValueView::Integer(status)
            &&& !fields.contains_key(EXCEPTION_MESSAGE@)
            &&& !fields.contains_key(EXCEPTION_DETAILS@)
            &&& forall|name: Seq<char>| #[trigger]
                fields.contains_key(name) ==> name == METHOD@ || name == ENDPOINT@ || name
                    == CLIENT_IP@ || name == REQUEST_ID@ || name == STATUS@
        }),
{
    let outcome = OutcomeView::PlainSuccess { status };
    lemma_field_names_distinct();
    lemma_start_fields(request);
    lemma_end_fields(outcome);
    lemma_fields_of_concat(start_writes(request), end_writes(outcome));
}

/// A response that carries an error: whatever was written before, the span
/// holds the status of the response, also where the error by itself
/// resolves to another one.
pub proof fn law_embedded_error_keeps_response_status(
    before: Seq<AttributeView>,
    status: int,
    error: ResponseErrorView,
)
    ensures
        ({
            let fields = fields_of(
                before + end_writes(OutcomeView::SuccessWithEmbeddedError { status, error }),
            );
            fields.contains_key(STATUS@) && fields[STATUS@] == ValueView::Integer(status)
        }),
{
    let outcome = OutcomeView::SuccessWithEmbeddedError { status, error };
    lemma_end_fields(outcome);
    lemma_fields_of_concat(before, end_writes(outcome));
}

/// A failure of the pipeline: whatever was written before, the span holds
/// the status that the error resolves to.
pub proof fn law_failure_sets_status_of_error(before: Seq<AttributeView>, error: ResponseErrorView)
    ensures
        ({
            let fields = fields_of(before + end_writes(OutcomeView::Failure { error }));
            fields.contains_key(STATUS@) && fields[STATUS@] == ValueView::Integer(
                error.status_code,
            )
        }),
{
    let outcome = OutcomeView::Failure { error };
    lemma_end_fields(outcome);
    lemma_fields_of_concat(before, end_writes(outcome));
}

/// An outcome that carries an error, with or without a response: whatever
/// was written before, both exception fields are set, the one to the error's
/// message and the other to its details.
pub proof fn law_error_sets_both_exception_fields(
    before: Seq<AttributeView>,
    outcome: OutcomeView,
)
    requires
        outcome.error() is Some,
    ensures
        ({
            let fields = fields_of(before + end_writes(outcome));
            let error = outcome.error()->Some_0;
            &&& fields.contains_key(EXCEPTION_MESSAGE@) && fields[EXCEPTION_MESSAGE@]
                == ValueView::Text(error.message)
            &&& fields.contains_key(EXCEPTION_DETAILS@) && fields[EXCEPTION_DETAILS@]
                == ValueView::Text(error.details)
        }),
{
    lemma_field_names_distinct();
    lemma_end_fields(outcome);
    lemma_fields_of_concat(before, end_writes(outcome));
}

/// An outcome that carries an error whose message and details are not
/// empty: both exception fields hold a text that is not empty.
pub proof fn law_exception_fields_not_empty(before: Seq<AttributeView>, outcome: OutcomeView)
    requires
        outcome.error() is Some,
        outcome.error()->Some_0.message.len() > 0,
        outcome.error()->Some_0.details.len() > 0,
    ensures
        ({
            let fields = fields_of(before + end_writes(outcome));
            &&& fields.contains_key(EXCEPTION_MESSAGE@)
            &&& fields.contains_key(EXCEPTION_DETAILS@)
            &&& fields[EXCEPTION_MESSAGE@] matches ValueView::Text(message) && message.len() > 0
            &&& fields[EXCEPTION_DETAILS@] matches ValueView::Text(details) && details.len() > 0
        }),
{
    law_error_sets_both_exception_fields(before, outcome);
}

/// The endpoint of a span is the route template of its request, from the
/// start of the request to its end and whatever the outcome. The path that
/// the request resolved to has no part in it.
pub proof fn law_endpoint_is_route_template(
    request: RequestView,
    template: Seq<char>,
    outcome: OutcomeView,
)
    requires
        request.route_template == Some(template),
    ensures
        fields_of(start_writes(request)).contains_key(ENDPOINT@),
        fields_of(start_writes(request))[ENDPOINT@] == ValueView::Text(template),
        fields_of(start_writes(request) + end_writes(outcome)).contains_key(ENDPOINT@),
        fields_of(start_writes(request) + end_writes(outcome))[ENDPOINT@] == ValueView::Text(
            template,
        ),
{
    lemma_field_names_distinct();
    lemma_start_fields(request);
    lemma_end_fields(outcome);
    lemma_fields_of_concat(start_writes(request), end_writes(outcome));
}

/// The end of a request touches the status and the two exception fields
/// and nothing else: every other field is set or not as it was, and holds
/// what it held.
pub proof fn law_end_keeps_other_fields(
    before: Seq<AttributeView>,
    outcome: OutcomeView,
    name: Seq<char>,
)
    requires
        name != STATUS@,
        name != EXCEPTION_MESSAGE@,
        name != EXCEPTION_DETAILS@,
    ensures
        fields_of(before + end_writes(outcome)).contains_key(name) == fields_of(
            before,
        ).contains_key(name),
        fields_of(before).contains_key(name) ==> fields_of(before + end_writes(outcome))[name]
            == fields_of(before)[name],
{
    lemma_end_fields(outcome);
    lemma_fields_of_concat(before, end_writes(outcome));
}

/// Two requests that differ in nothing but the path they resolved to seed
/// their spans with the same writes.
pub proof fn law_start_ignores_path(first: RequestView, second: RequestView)
    requires
        first.method == second.method,
        first.route_template == second.route_template,
        first.client_address == second.client_address,
        first.request_id == second.request_id,
    ensures
        start_writes(first) == start_writes(second),
{
}

/// The end of a request writes the status exactly once, whatever the
/// outcome.
pub proof fn law_status_written_once(outcome: OutcomeView)
    ensures
        count_writes(end_writes(outcome), STATUS@) == 1,
{
    lemma_field_names_distinct();
    reveal_with_fuel(count_writes, 4);
    let writes = end_writes(outcome);
    if writes.len() == 3 {
        assert(writes.drop_last().drop_last().drop_last() =~= Seq::<AttributeView>::empty());
    } else {
        assert(writes.drop_last() =~= Seq::<AttributeView>::empty());
    }
}

/// The request identifier of a span is the one that came with its request,
/// from the start of the request to its end and whatever the outcome. Where
/// none came, the field is never set: the strategy makes none up.
pub proof fn law_request_id_is_the_supplied_one(request: RequestView, outcome: OutcomeView)
    ensures
        seeded(fields_of(start_writes(request)), REQUEST_ID@, request.request_id),
        seeded(
            fields_of(start_writes(request) + end_writes(outcome)),
            REQUEST_ID@,
            request.request_id,
        ),
{
    lemma_field_names_distinct();
    lemma_start_fields(request);
    lemma_end_fields(outcome);
    lemma_fields_of_concat(start_writes(request), end_writes(outcome));
}

} // verus!
