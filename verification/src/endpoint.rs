//! The decisions of the one endpoint, `GET /sales_by_color_ranked`.
//!
//! A request is received, validated, queried, sanitised and responded to, and
//! leaves early with a response where a stage fails. The waiting on the store
//! lies between `begin`, which covers the stages up to the query, and
//! `respond`, which covers those after it.

use vstd::prelude::*;
use crate::date::CalendarDate;
use crate::engine::{plan_query, planned, sanitize_rows, sanitized_rows, QueryPlan};
use crate::params::SalesByColorParams;
use crate::record::{SalesByColorRanked, SalesRow};
use crate::validate::{validate, validated, ValidationError};

verus! {

/// The body of the response that reports an empty result.
pub const NO_DATA_MESSAGE: &'static str = "No data available in the database";

/// The body of the response that reports a failure of the store. It says
/// nothing of the cause.
pub const STORE_FAILURE_MESSAGE: &'static str = "Error retrieving Color Sales";

/// The store could not be reached, or could not run the query.
#[derive(Clone, Copy, Debug, PartialEq, Eq, Structural)]
pub struct QueryError;

/// How a request ends.
#[derive(Debug)]
pub enum Response {
    /// Status 200: the cleaned rows, of which there is at least one, as the body.
    Found(Vec<SalesByColorRanked>),
    /// Status 400: the parameters are malformed; the error is the body.
    Invalid(ValidationError),
    /// Status 404: no row is left to return; `NO_DATA_MESSAGE` is the body.
    NoData,
    /// Status 500: the store failed; `STORE_FAILURE_MESSAGE` is the body.
    StoreFailure,
}

/// What a [`Response`] holds.
pub enum Outcome {
    Found(Seq<SalesRow>),
    Invalid(ValidationError),
    NoData,
    StoreFailure,
}

impl View for Response {
    type V = Outcome;

    open spec fn view(&self) -> Outcome {
        match self {
            Response::Found(rows) => Outcome::Found(rows.deep_view()),
            Response::Invalid(error) => Outcome::Invalid(*error),
            Response::NoData => Outcome::NoData,
            Response::StoreFailure => Outcome::StoreFailure,
        }
    }
}

impl Outcome {
    /// The HTTP status of the response.
    pub open spec fn status(self) -> u16 {
        match self {
            Outcome::Found(_) => 200,
            Outcome::Invalid(_) => 400,
            Outcome::NoData => 404,
            Outcome::StoreFailure => 500,
        }
    }

    /// The plain text that is the body of the response, where its body is
    /// plain text.
    pub open spec fn message(self) -> Option<Seq<char>> {
        match self {
            Outcome::Found(_) => None,
            Outcome::Invalid(_) => None,
            Outcome::NoData => Some(NO_DATA_MESSAGE@),
            Outcome::StoreFailure => Some(STORE_FAILURE_MESSAGE@),
        }
    }
}

impl Response {
    /// The HTTP status of the response.
    pub fn status(&self) -> (status: u16)
        ensures
            status == self@.status(),
    {
        match self {
            Response::Found(_) => 200,
            Response::Invalid(_) => 400,
            Response::NoData => 404,
            Response::StoreFailure => 500,
        }
    }

    /// The plain text that is the body of the response; `None` where the body
    /// is the rows or the validation error.
    pub fn message(&self) -> (message: Option<&'static str>)
        ensures
            message is Some <==> self@.message() is Some,
            message matches Some(text) ==> self@.message() == Some(text@),
    {
        match self {
            Response::Found(_) => None,
            Response::Invalid(_) => None,
            Response::NoData => Some(NO_DATA_MESSAGE),
            Response::StoreFailure => Some(STORE_FAILURE_MESSAGE),
        }
    }
}

/// What a request needs next.
#[derive(Debug)]
pub enum Step {
    /// Ask the store: run the ranking query over these days, then hand what
    /// the store said to `respond`.
    Query { date_from: CalendarDate, date_to: CalendarDate },
    /// The request is over.
    Respond(Response),
}

/// What a [`Step`] holds.
pub enum Pending {
    Query { date_from: CalendarDate, date_to: CalendarDate },
    Respond(Outcome),
}

impl View for Step {
    type V = Pending;

    open spec fn view(&self) -> Pending {
        match self {
            Step::Query { date_from, date_to } => Pending::Query {
                date_from: *date_from,
                date_to: *date_to,
            },
            Step::Respond(response) => Pending::Respond(response@),
        }
    }
}

/// The response to the rows that are left after sanitising: an empty result
/// is reported as such, and is no failure.
pub open spec fn outcome_of_rows(kept: Seq<SalesRow>) -> Outcome {
    if kept.len() == 0 {
        Outcome::NoData
    } else {
        Outcome::Found(kept)
    }
}

/// The response to what the store said.
pub open spec fn outcome_of_reply(reply: Result<Seq<SalesRow>, QueryError>) -> Outcome {
    match reply {
        Ok(raw) => outcome_of_rows(sanitized_rows(raw)),
        Err(_) => Outcome::StoreFailure,
    }
}

/// The step that follows validation: malformed parameters end the request,
/// and so does a window that holds no day, which has the empty result.
pub open spec fn step_after(checked: Result<SalesByColorParams, ValidationError>) -> Pending {
    match checked {
        Err(error) => Pending::Respond(Outcome::Invalid(error)),
        Ok(window) => match planned(window) {
            QueryPlan::Empty => Pending::Respond(outcome_of_rows(Seq::empty())),
            QueryPlan::Run { date_from, date_to } => Pending::Query { date_from, date_to },
        },
    }
}

/// What the store said, by what its rows hold.
pub open spec fn reply_view(reply: Result<Vec<SalesByColorRanked>, QueryError>) -> Result<
    Seq<SalesRow>,
    QueryError,
> {
    match reply {
        Ok(rows) => Ok(rows.deep_view()),
        Err(error) => Err(error),
    }
}

/// A request for a window whose bounds are reversed ends at once with the
/// empty result, whatever the store holds: the response is the one to a store
/// that has no row for the window, and the store is not asked.
pub proof fn lemma_reversed_window_has_no_data(window: SalesByColorParams)
    requires
        window.reversed(),
    ensures
        planned(window) == QueryPlan::Empty,
        step_after(Ok(window)) == Pending::Respond(Outcome::NoData),
        step_after(Ok(window)) == Pending::Respond(outcome_of_reply(Ok(Seq::empty()))),
        step_after(Ok(window))->Respond_0.status() == 404,
{
}

/// The response to the store's reply says that the store failed exactly where
/// it did, and reports an empty result exactly where sanitising leaves no row.
/// It never carries an empty set of rows, and never blames the parameters.
pub proof fn lemma_outcome_of_reply(reply: Result<Seq<SalesRow>, QueryError>)
    ensures
        outcome_of_reply(reply) is StoreFailure <==> reply is Err,
        outcome_of_reply(reply) is NoData <==> reply is Ok && sanitized_rows(reply->Ok_0).len()
            == 0,
        outcome_of_reply(reply) matches Outcome::Found(rows) ==> rows.len() > 0 && rows
            == sanitized_rows(reply->Ok_0),
        !(outcome_of_reply(reply) is Invalid),
{
}

/// Decides the step that follows validation.
pub fn proceed(checked: Result<SalesByColorParams, ValidationError>) -> (step: Step)
    ensures
        step@ == step_after(checked),
{
    match checked {
        Err(error) => Step::Respond(Response::Invalid(error)),
        Ok(window) => match plan_query(&window) {
            QueryPlan::Empty => Step::Respond(Response::NoData),
            QueryPlan::Run { date_from, date_to } => Step::Query { date_from, date_to },
        },
    }
}

/// Takes a request up to the query: validates its two date parameters and
/// plans the query. No store is touched before the parameters are valid.
pub fn begin(date_from: &str, date_to: &str) -> (step: Step)
    ensures
        step@ == step_after(
            validated(CalendarDate::parsed(date_from@), CalendarDate::parsed(date_to@)),
        ),
        step matches Step::Query { date_from: first, date_to: last } ==> first.is_valid()
            && last.is_valid() && !last.before(first),
{
    proceed(validate(date_from, date_to))
}

/// Takes a request from the store's reply to its response: sanitises the rows
/// and answers with those that are left.
pub fn respond(reply: Result<Vec<SalesByColorRanked>, QueryError>) -> (response: Response)
    ensures
        response@ == outcome_of_reply(reply_view(reply)),
        response matches Response::Found(rows) ==> rows.len() > 0,
{
    match reply {
        Ok(raw) => {
            let kept = sanitize_rows(raw);
            if kept.is_empty() {
                Response::NoData
            } else {
                Response::Found(kept)
            }
        },
        Err(_) => Response::StoreFailure,
    }
}

} // verus!
