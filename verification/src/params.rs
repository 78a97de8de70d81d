//! The date window of a ranking request.

use vstd::prelude::*;
use vstd::std_specs::convert::TryFromSpecImpl;
use crate::date::CalendarDate;

verus! {

/// The days from `date_from` to `date_to`, both included. Nothing asks that
/// `date_from` be the earlier one: a window whose bounds are reversed holds
/// no day.
#[derive(Clone, Copy, Debug, PartialEq, Eq, Structural)]
pub struct SalesByColorParams {
    pub date_from: CalendarDate,
    pub date_to: CalendarDate,
}

impl SalesByColorParams {
    /// Both bounds are days that the calendar has.
    pub open spec fn is_valid(self) -> bool {
        self.date_from.is_valid() && self.date_to.is_valid()
    }

    /// Whether `day` lies in the window.
    pub open spec fn contains(self, day: CalendarDate) -> bool {
        !day.before(self.date_from) && !self.date_to.before(day)
    }

    /// The bounds are reversed: `date_to` comes before `date_from`.
    pub open spec fn reversed(self) -> bool {
        self.date_to.before(self.date_from)
    }

    /// A window holds no day exactly where its bounds are reversed.
    pub proof fn lemma_reversed_holds_no_day(self)
        ensures
            self.reversed() <==> forall|day: CalendarDate| !self.contains(day),
    {
        if !self.reversed() {
            assert(self.contains(self.date_from));
        }
    }

    /// Whether the bounds are reversed.
    pub fn is_reversed(&self) -> (reversed: bool)
        ensures
            reversed == self.reversed(),
    {
        self.date_to.is_before(&self.date_from)
    }
}

/// A column value as the store hands it out, as far as a date window reads it.
#[derive(Clone, Copy, Debug, PartialEq, Eq, Structural)]
pub enum ColumnValue {
    /// A date column.
    Date { year: u16, month: u8, day: u8 },
    /// A column of any other type.
    Other,
}

/// The column value that could not be read as a date window.
#[derive(Clone, Copy, Debug, PartialEq, Eq, Structural)]
pub struct FromValueError(pub ColumnValue);

/// The window that a column value stands for: the single day of a date column
/// that the calendar has.
pub open spec fn window_of(value: ColumnValue) -> Result<SalesByColorParams, FromValueError> {
    match value {
        ColumnValue::Date { year, month, day } => {
            let date = CalendarDate { year: year as i32, month: month as u32, day: day as u32 };
            if date.is_valid() {
                Ok(SalesByColorParams { date_from: date, date_to: date })
            } else {
                Err(FromValueError(value))
            }
        },
        ColumnValue::Other => Err(FromValueError(value)),
    }
}

/// The window of a column value is that of a single day, which the calendar
/// has; a column value that is handed back is handed back as it came.
pub proof fn lemma_window_of(value: ColumnValue)
    ensures
        window_of(value) matches Ok(window) ==> window.is_valid() && window.date_from
            == window.date_to && !window.reversed(),
        window_of(value) matches Err(error) ==> error.0 == value,
{
}

impl TryFrom<ColumnValue> for SalesByColorParams {
    type Error = FromValueError;

    /// Reads a date column as the window of that single day.
    fn try_from(value: ColumnValue) -> (window: Result<Self, Self::Error>) {
        match value {
            ColumnValue::Date { year, month, day } => {
                match CalendarDate::from_ymd(year as i32, month as u32, day as u32) {
                    Some(date) => Ok(SalesByColorParams { date_from: date, date_to: date }),
                    None => Err(FromValueError(value)),
                }
            },
            ColumnValue::Other => Err(FromValueError(value)),
        }
    }
}

impl TryFromSpecImpl<ColumnValue> for SalesByColorParams {
    open spec fn obeys_try_from_spec() -> bool {
        true
    }

    open spec fn try_from_spec(value: ColumnValue) -> Result<Self, Self::Error> {
        window_of(value)
    }
}

} // verus!
