//! Validation of the two date parameters of a request.

use vstd::prelude::*;
use crate::date::CalendarDate;
use crate::params::SalesByColorParams;

verus! {

/// Says, bound by bound, what is wrong with a request's parameters. At least
/// one bound is marked.
#[derive(Clone, Copy, Debug, PartialEq, Eq, Structural)]
pub struct ValidationError {
    /// `date_from` is no date.
    pub date_from_malformed: bool,
    /// `date_to` is no date.
    pub date_to_malformed: bool,
}

/// The window made of two dates as they were read, or the error that marks
/// each bound that could not be read. The order of the bounds is not looked
/// at: a reversed window is valid.
pub open spec fn validated(from: Option<CalendarDate>, to: Option<CalendarDate>) -> Result<
    SalesByColorParams,
    ValidationError,
> {
    if from is Some && to is Some {
        Ok(SalesByColorParams { date_from: from->0, date_to: to->0 })
    } else {
        Err(ValidationError { date_from_malformed: from is None, date_to_malformed: to is None })
    }
}

/// Makes the window of two dates as they were read, and fails where one of
/// them could not be read.
pub fn check_dates(from: Option<CalendarDate>, to: Option<CalendarDate>) -> (checked: Result<
    SalesByColorParams,
    ValidationError,
>)
    ensures
        checked == validated(from, to),
        checked matches Err(error) ==> error.date_from_malformed || error.date_to_malformed,
{
    match (from, to) {
        (Some(date_from), Some(date_to)) => Ok(SalesByColorParams { date_from, date_to }),
        _ => Err(
            ValidationError { date_from_malformed: from.is_none(), date_to_malformed: to.is_none() },
        ),
    }
}

/// Validates the two date parameters of a request as they came in. Nothing
/// else is read or written.
pub fn validate(date_from: &str, date_to: &str) -> (checked: Result<
    SalesByColorParams,
    ValidationError,
>)
    ensures
        checked == validated(CalendarDate::parsed(date_from@), CalendarDate::parsed(date_to@)),
        checked matches Ok(window) ==> window.is_valid(),
        checked matches Err(error) ==> error.date_from_malformed || error.date_to_malformed,
{
    check_dates(CalendarDate::parse(date_from), CalendarDate::parse(date_to))
}

} // verus!
