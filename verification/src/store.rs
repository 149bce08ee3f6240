//! What handling a subscribe request does to the subscriber table.
//!
//! The table lives in a database that the server shell writes to. This module
//! states what the library expects of it: an insert that succeeds adds the row
//! it was given, and nothing else changes the table. On that footing it proves
//! what a whole request, from body to response, amounts to.

use crate::form::{values_of, Field};
use crate::http::{
    empty_response, ResponseView, STATUS_BAD_REQUEST, STATUS_INTERNAL_SERVER_ERROR, STATUS_OK,
};
use crate::routes::subscriptions::{accepted_form, intake_of, outcome_response, IntakeView};
use crate::subscriber::{SubscriberView, Timestamp};
use vstd::prelude::*;

verus! {

/// The rows of the table after a request, given the rows before it, what was
/// decided on the request, and whether the insert succeeded if one was asked
/// for.
pub open spec fn table_after(
    table: Seq<SubscriberView>,
    step: IntakeView,
    stored: bool,
) -> Seq<SubscriberView> {
    match step {
        IntakeView::Reject { .. } => table,
        IntakeView::Insert(row) => if stored {
            table.push(row)
        } else {
            table
        },
    }
}

/// The response that goes out for a request, given what was decided on it and
/// whether the insert succeeded if one was asked for.
pub open spec fn response_after(step: IntakeView, stored: bool) -> ResponseView {
    match step {
        IntakeView::Reject { response, .. } => response,
        IntakeView::Insert(_) => outcome_response(stored),
    }
}

/// The field is not submitted, or is submitted with nothing in it.
pub open spec fn missing_or_empty(pairs: Seq<(Seq<char>, Seq<char>)>, field: Field) -> bool {
    let values = values_of(pairs, field.key());
    values.len() == 0 || exists|i: int| 0 <= i < values.len() && #[trigger] values[i].len() == 0
}

/// A form that holds each field once, neither of them empty, asks for one row
/// with exactly the submitted texts. Once the store has taken the row, the
/// response is 200 with an empty body and the table has grown by that row and
/// no other.
pub proof fn lemma_complete_form_is_stored(
    pairs: Seq<(Seq<char>, Seq<char>)>,
    email: Seq<char>,
    name: Seq<char>,
    id: u128,
    now: Timestamp,
    table: Seq<SubscriberView>,
)
    requires
        values_of(pairs, Field::Email.key()) == seq![email],
        values_of(pairs, Field::Name.key()) == seq![name],
        email.len() > 0,
        name.len() > 0,
    ensures
        intake_of(pairs, id, now) == IntakeView::Insert(
            SubscriberView { id, email, name, subscribed_at: now },
        ),
        response_after(intake_of(pairs, id, now), true) == empty_response(STATUS_OK),
        table_after(table, intake_of(pairs, id, now), true) == table.push(
            SubscriberView { id, email, name, subscribed_at: now },
        ),
        table_after(table, intake_of(pairs, id, now), true).len() == table.len() + 1,
{
}

/// A form in which the e-mail address or the name is missing or empty is
/// answered with 400 and an empty body, and the table stays as it was.
pub proof fn lemma_incomplete_form_is_rejected(
    pairs: Seq<(Seq<char>, Seq<char>)>,
    id: u128,
    now: Timestamp,
    table: Seq<SubscriberView>,
    stored: bool,
)
    requires
        missing_or_empty(pairs, Field::Email) || missing_or_empty(pairs, Field::Name),
    ensures
        intake_of(pairs, id, now) is Reject,
        response_after(intake_of(pairs, id, now), stored) == empty_response(STATUS_BAD_REQUEST),
        table_after(table, intake_of(pairs, id, now), stored) == table,
{
}

/// A row that the store does not take is answered with 500 and an empty body,
/// and the table stays as it was.
pub proof fn lemma_failed_insert_is_an_error(
    pairs: Seq<(Seq<char>, Seq<char>)>,
    id: u128,
    now: Timestamp,
    table: Seq<SubscriberView>,
)
    requires
        accepted_form(pairs) is Ok,
    ensures
        response_after(intake_of(pairs, id, now), false) == empty_response(
            STATUS_INTERNAL_SERVER_ERROR,
        ),
        table_after(table, intake_of(pairs, id, now), false) == table,
{
}

/// Nothing is deduplicated. An acceptable form that is submitted twice asks for
/// two rows with the same texts, and once the store has taken both, the table
/// holds both. Only the identifier and the time tell them apart: rows drawn
/// with different identifiers are different rows.
pub proof fn lemma_same_form_twice_is_two_rows(
    pairs: Seq<(Seq<char>, Seq<char>)>,
    first_id: u128,
    first_now: Timestamp,
    second_id: u128,
    second_now: Timestamp,
    table: Seq<SubscriberView>,
)
    requires
        accepted_form(pairs) is Ok,
    ensures
        intake_of(pairs, first_id, first_now) matches IntakeView::Insert(first)
            && intake_of(pairs, second_id, second_now) matches IntakeView::Insert(second) && {
            &&& first.email == second.email
            &&& first.name == second.name
            &&& first_id != second_id ==> first != second
            &&& table_after(
                table_after(table, intake_of(pairs, first_id, first_now), true),
                intake_of(pairs, second_id, second_now),
                true,
            ) == table.push(first).push(second)
        },
        table_after(
            table_after(table, intake_of(pairs, first_id, first_now), true),
            intake_of(pairs, second_id, second_now),
            true,
        ).len() == table.len() + 2,
{
}

} // verus!
