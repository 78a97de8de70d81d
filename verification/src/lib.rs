//! Sales by colour, ranked: the logic of a service that answers one question.
//! Given a window of days, what did every location sell of each beer style in
//! each colour, and how do the locations rank within their (colour, style)
//! partition?
//!
//! The sums and the ranks are the work of a relational store. This library
//! holds what surrounds the store: it validates the two dates of a request
//! ([`validate`]), plans the query ([`engine`]), cleans the rows that the store
//! gives back and drops those that cannot be repaired ([`record`],
//! [`engine`]), and decides the response ([`endpoint`]). It reads no socket and
//! opens no connection: its caller asks the store where [`endpoint::begin`]
//! says so, and hands the reply to [`endpoint::respond`].
//!
//! Totals are IEEE 754 binary64 values, held by their bit patterns
//! ([`amount`]). Dates are read and tested with `chrono` ([`date`]).
//!
//! Proved of every input: what each function returns, that the returned labels
//! hold ASCII letters and digits only, that no returned total is a NaN or the
//! largest finite value, which rows are dropped, and that a ranking which the
//! store gave is kept ([`ranking`]). Taken on trust, and marked where they
//! stand: what `String::push` and `==` on `str` do, and what
//! `chrono::NaiveDate` says of a date.

pub mod amount;
pub mod date;
pub mod endpoint;
pub mod engine;
pub mod params;
pub mod ranking;
pub mod record;
pub mod text;
pub mod validate;
