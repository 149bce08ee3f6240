//! `POST /subscribe`: takes a form with an e-mail address and a name, and has
//! the subscriber written to the store.
//!
//! The store is written by the server shell, not here. Handling a request is
//! therefore cut in two: `subscribe` decides from the body whether a row is to
//! be inserted and which, and `conclude` turns the outcome of that insert into
//! the response.

use crate::form::{decode_pairs, find_sole_value, form_pairs, sole_value, Fault, Field, FormError};
use crate::http::{
    empty_response, Response, ResponseView, STATUS_BAD_REQUEST, STATUS_INTERNAL_SERVER_ERROR,
    STATUS_OK,
};
use crate::subscriber::{fresh_id, is_random_id, utc_now, Subscriber, SubscriberView, Timestamp};
use vstd::prelude::*;

verus! {

/// The fields of the subscribe form, as they were submitted.
#[derive(Debug, PartialEq, Eq)]
pub struct SubscribeFormData {
    pub email: String,
    pub name: String,
}

/// What a `SubscribeFormData` stands for.
pub struct FormView {
    pub email: Seq<char>,
    pub name: Seq<char>,
}

impl View for SubscribeFormData {
    type V = FormView;

    open spec fn view(&self) -> FormView {
        FormView { email: self.email@, name: self.name@ }
    }
}

/// The form that decoded pairs carry: each of the two fields submitted exactly
/// once. Pairs under other keys do not count. The e-mail address is looked at
/// first.
pub open spec fn form_in(pairs: Seq<(Seq<char>, Seq<char>)>) -> Result<FormView, FormError> {
    match sole_value(pairs, Field::Email) {
        Err(error) => Err(error),
        Ok(email) => match sole_value(pairs, Field::Name) {
            Err(error) => Err(error),
            Ok(name) => Ok(FormView { email, name }),
        },
    }
}

/// Whether a form may be stored: neither field is empty. Nothing else is asked
/// of an e-mail address. The e-mail address is looked at first.
pub open spec fn validity(form: FormView) -> Result<(), FormError> {
    if form.email.len() == 0 {
        Err(FormError { field: Field::Email, fault: Fault::Empty })
    } else if form.name.len() == 0 {
        Err(FormError { field: Field::Name, fault: Fault::Empty })
    } else {
        Ok(())
    }
}

/// The form that is accepted from decoded pairs, or the reason why none is.
pub open spec fn accepted_form(pairs: Seq<(Seq<char>, Seq<char>)>) -> Result<FormView, FormError> {
    match form_in(pairs) {
        Err(error) => Err(error),
        Ok(form) => match validity(form) {
            Err(error) => Err(error),
            Ok(_) => Ok(form),
        },
    }
}

/// What the outcome of reading a form stands for: the form read, or the error.
pub open spec fn reading_view(found: Result<SubscribeFormData, FormError>) -> Result<
    FormView,
    FormError,
> {
    match found {
        Ok(form) => Ok(form@),
        Err(error) => Err(error),
    }
}

impl SubscribeFormData {
    /// Picks the two fields out of decoded pairs.
    pub fn from_pairs(pairs: &Vec<(String, String)>) -> (found: Result<SubscribeFormData, FormError>)
        ensures
            reading_view(found) == form_in(pairs.deep_view()),
    {
        match find_sole_value(pairs, Field::Email) {
            Err(error) => Err(error),
            Ok(email) => match find_sole_value(pairs, Field::Name) {
                Err(error) => Err(error),
                Ok(name) => Ok(SubscribeFormData { email, name }),
            },
        }
    }

    /// Decodes a request body and picks the two fields out of it.
    pub fn from_body(body: &[u8]) -> (found: Result<SubscribeFormData, FormError>)
        ensures
            reading_view(found) == form_in(form_pairs(body@)),
    {
        let pairs = decode_pairs(body);
        SubscribeFormData::from_pairs(&pairs)
    }

    /// Checks that neither field is empty.
    pub fn validate(&self) -> (checked: Result<(), FormError>)
        ensures
            checked == validity(self@),
    {
        if self.email.as_str().is_empty() {
            Err(FormError { field: Field::Email, fault: Fault::Empty })
        } else if self.name.as_str().is_empty() {
            Err(FormError { field: Field::Name, fault: Fault::Empty })
        } else {
            Ok(())
        }
    }
}

/// What is to be done with a subscribe request once its body has been read.
#[derive(Debug, PartialEq, Eq)]
pub enum Intake {
    /// The form is not acceptable. The response is final and nothing is written.
    Reject { error: FormError, response: Response },
    /// The form is acceptable. This one row is to be inserted, once, and the
    /// outcome handed to `conclude`.
    Insert(Subscriber),
}

/// What an `Intake` stands for.
pub enum IntakeView {
    Reject { error: FormError, response: ResponseView },
    Insert(SubscriberView),
}

impl View for Intake {
    type V = IntakeView;

    open spec fn view(&self) -> IntakeView {
        match self {
            Intake::Reject { error, response } => IntakeView::Reject {
                error: *error,
                response: response@,
            },
            Intake::Insert(subscriber) => IntakeView::Insert(subscriber@),
        }
    }
}

/// The decision on a request with the given decoded pairs, where `id` and `now`
/// are the identifier and the time that were drawn for it: an incomplete form is
/// answered with status 400 and an empty body, a complete one becomes a row
/// with exactly the submitted texts.
pub open spec fn intake_of(pairs: Seq<(Seq<char>, Seq<char>)>, id: u128, now: Timestamp) -> IntakeView {
    match accepted_form(pairs) {
        Err(error) => IntakeView::Reject { error, response: empty_response(STATUS_BAD_REQUEST) },
        Ok(form) => IntakeView::Insert(
            SubscriberView { id, email: form.email, name: form.name, subscribed_at: now },
        ),
    }
}

/// Extracts and validates the form in decoded pairs.
fn accept(pairs: &Vec<(String, String)>) -> (found: Result<SubscribeFormData, FormError>)
    ensures
        reading_view(found) == accepted_form(pairs.deep_view()),
{
    match SubscribeFormData::from_pairs(pairs) {
        Err(error) => Err(error),
        Ok(form) => match form.validate() {
            Err(error) => Err(error),
            Ok(_) => Ok(form),
        },
    }
}

/// The final answer to a form that is not acceptable.
fn reject(error: FormError) -> (step: Intake)
    ensures
        step@ == (IntakeView::Reject { error, response: empty_response(STATUS_BAD_REQUEST) }),
{
    Intake::Reject { error, response: Response::empty(STATUS_BAD_REQUEST) }
}

/// The row for a form that is acceptable.
fn enroll(form: SubscribeFormData, id: u128, now: Timestamp) -> (step: Intake)
    ensures
        step@ == IntakeView::Insert(
            SubscriberView { id, email: form@.email, name: form@.name, subscribed_at: now },
        ),
{
    Intake::Insert(Subscriber { id, email: form.email, name: form.name, subscribed_at: now })
}

/// Decides on a request from its decoded pairs, with the identifier and the
/// time to use for the row.
pub fn subscribe_pairs(pairs: &Vec<(String, String)>, id: u128, now: Timestamp) -> (step: Intake)
    ensures
        step@ == intake_of(pairs.deep_view(), id, now),
{
    match accept(pairs) {
        Err(error) => reject(error),
        Ok(form) => enroll(form, id, now),
    }
}

/// Decides on a subscribe request from the bytes of its body.
///
/// The body is decoded as `application/x-www-form-urlencoded`. An incomplete
/// form is rejected before anything else happens. For a complete one a fresh
/// identifier is drawn and the clock is read; the row to insert carries them
/// with exactly the submitted e-mail address and name.
pub fn subscribe(body: &[u8]) -> (step: Intake)
    ensures
        match accepted_form(form_pairs(body@)) {
            Err(error) => step@ == (IntakeView::Reject {
                error,
                response: empty_response(STATUS_BAD_REQUEST),
            }),
            Ok(form) => {
                &&& step matches Intake::Insert(subscriber)
                &&& subscriber@.email == form.email
                &&& subscriber@.name == form.name
                &&& is_random_id(subscriber.id)
                &&& subscriber@.wf()
                &&& step@ == intake_of(form_pairs(body@), subscriber.id, subscriber.subscribed_at)
            },
        },
{
    let pairs = decode_pairs(body);
    match accept(&pairs) {
        Err(error) => reject(error),
        Ok(form) => enroll(form, fresh_id(), utc_now()),
    }
}

/// A failed insert, for the log: the identifier of the request and what the
/// store driver reported.
#[derive(Debug, PartialEq, Eq)]
pub struct StorageFailure {
    pub request_id: u128,
    pub cause: String,
}

/// How a request that reached the store ends.
#[derive(Debug, PartialEq, Eq)]
pub struct Conclusion {
    pub response: Response,
    /// Set when the insert failed. The caller logs it; it is not sent out.
    pub failure: Option<StorageFailure>,
}

/// The response to a request that reached the store: status 200 when the row
/// was written, status 500 when it was not, with an empty body either way.
pub open spec fn outcome_response(stored: bool) -> ResponseView {
    if stored {
        empty_response(STATUS_OK)
    } else {
        empty_response(STATUS_INTERNAL_SERVER_ERROR)
    }
}

/// Turns the outcome of the insert into the end of the request. A failed insert
/// is handed back for the log, under the identifier of the request and with the
/// driver's report untouched. No second insert is asked for.
pub fn conclude(subscriber: &Subscriber, outcome: Result<(), String>) -> (end: Conclusion)
    ensures
        end.response@ == outcome_response(outcome is Ok),
        match outcome {
            Ok(_) => end.failure is None,
            Err(cause) => {
                &&& end.failure matches Some(failure)
                &&& failure.request_id == subscriber.id
                &&& failure.cause@ == cause@
            },
        },
{
    match outcome {
        Ok(_) => Conclusion { response: Response::empty(STATUS_OK), failure: None },
        Err(cause) => Conclusion {
            response: Response::empty(STATUS_INTERNAL_SERVER_ERROR),
            failure: Some(StorageFailure { request_id: subscriber.id, cause }),
        },
    }
}

} // verus!
