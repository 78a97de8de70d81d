//! The ranking query and the sanitising of what it returns.

use vstd::prelude::*;
use crate::date::CalendarDate;
use crate::params::SalesByColorParams;
use crate::record::{SalesByColorRanked, SalesRow};
use crate::text::is_alphanumeric;

verus! {

/// The ranking query. It sums the sales of every (colour, style, location)
/// group over the days from `:date_from` to `:date_to`, both included, with
/// the colour codes of the sales joined to their names. Within each (colour,
/// style) partition it numbers the locations from 1 by falling sum, one number
/// per row, so that equal sums get different numbers in an order that the store
/// picks. The rows come sorted by colour, then style, then falling sum.
pub const RANKING_QUERY: &'static str = "
WITH ranked_sales AS (
    SELECT
        c.color AS brew_color,
        bd.beer_style,
        bd.location,
        SUM(bd.total_sales) AS total_sales,
        ROW_NUMBER() OVER (PARTITION BY c.color, bd.beer_style ORDER BY SUM(bd.total_sales) DESC) AS ranked
    FROM
        brewery_data bd
    JOIN
        colors c ON bd.color = c.color_number
    WHERE
        bd.brew_date >= :date_from AND bd.brew_date <= :date_to
    GROUP BY
        c.color, bd.beer_style, bd.location
)
SELECT
    brew_color,
    beer_style,
    location,
    total_sales,
    ranked
FROM
    ranked_sales
ORDER BY
    brew_color, beer_style, total_sales DESC;
";

/// The name of the query's parameter for the first day of the window.
pub const DATE_FROM_PARAMETER: &'static str = "date_from";

/// The name of the query's parameter for the last day of the window.
pub const DATE_TO_PARAMETER: &'static str = "date_to";

/// What answering a window takes.
#[derive(Clone, Copy, Debug, PartialEq, Eq, Structural)]
pub enum QueryPlan {
    /// The window holds no day, so no row can match: the answer is the empty
    /// set of rows, and the store is not asked.
    Empty,
    /// Run `RANKING_QUERY` with `DATE_FROM_PARAMETER` bound to `date_from` and
    /// `DATE_TO_PARAMETER` to `date_to`.
    Run { date_from: CalendarDate, date_to: CalendarDate },
}

/// The plan for a window: a window whose bounds are reversed is answered
/// without the store, every other window by the ranking query over its bounds.
pub open spec fn planned(window: SalesByColorParams) -> QueryPlan {
    if window.reversed() {
        QueryPlan::Empty
    } else {
        QueryPlan::Run { date_from: window.date_from, date_to: window.date_to }
    }
}

/// Plans the answer to a window.
pub fn plan_query(window: &SalesByColorParams) -> (plan: QueryPlan)
    ensures
        plan == planned(*window),
{
    if window.is_reversed() {
        QueryPlan::Empty
    } else {
        QueryPlan::Run { date_from: window.date_from, date_to: window.date_to }
    }
}

/// The rows that are left of `raw` once every row has gone through the three
/// cleaning passes: the rejected ones are gone, the others stand cleaned and in
/// the order in which the store gave them.
pub open spec fn sanitized_rows(raw: Seq<SalesRow>) -> Seq<SalesRow> {
    raw.filter_map(|row: SalesRow| row.sanitized())
}

/// The rows of `raw` that the rank pass does not reject, in their order.
pub open spec fn accepted_rows(raw: Seq<SalesRow>) -> Seq<SalesRow> {
    raw.filter(|row: SalesRow| !row.rejected())
}

/// Sanitising drops the rejected rows, keeps the order of the others and
/// cleans each of them by itself: one row has no effect on another.
pub proof fn lemma_sanitized_rows_in_order(raw: Seq<SalesRow>)
    ensures
        sanitized_rows(raw) == accepted_rows(raw).map_values(|row: SalesRow| row.sanitized()->0),
    decreases raw.len(),
{
    let accepts = |row: SalesRow| !row.rejected();
    if raw.len() == 0 {
        raw.lemma_filter_len(accepts);
    } else {
        let rest = raw.drop_last();
        let last = raw.last();
        lemma_sanitized_rows_in_order(rest);
        assert(raw == rest.push(last));
        rest.lemma_filter_push(last, accepts);
    }
}

/// Every returned row is the sanitised form of a row that the store gave.
pub proof fn lemma_returned_row_has_origin(raw: Seq<SalesRow>, j: int)
    requires
        0 <= j < sanitized_rows(raw).len(),
    ensures
        exists|i: int|
            0 <= i < raw.len() && (#[trigger] raw[i]).sanitized() == Some(sanitized_rows(raw)[j]),
{
    let kept = sanitized_rows(raw);
    assert(kept.contains(kept[j]));
    raw.lemma_filter_map_contains(|row: SalesRow| row.sanitized(), kept[j]);
    let origin = choose|origin: SalesRow| #[trigger]
        raw.contains(origin) && origin.sanitized() == Some(kept[j]);
    let i = choose|i: int| 0 <= i < raw.len() && raw[i] == origin;
}

/// Every row that the rank pass does not reject is returned, sanitised.
pub proof fn lemma_accepted_row_is_returned(raw: Seq<SalesRow>, i: int)
    requires
        0 <= i < raw.len(),
        raw[i].sanitized() is Some,
    ensures
        sanitized_rows(raw).contains(raw[i].sanitized()->0),
    decreases raw.len(),
{
    let kept = sanitized_rows(raw);
    let rest = raw.drop_last();
    if i == raw.len() - 1 {
        assert(kept[kept.len() - 1] == raw[i].sanitized()->0);
    } else {
        lemma_accepted_row_is_returned(rest, i);
        let earlier = sanitized_rows(rest);
        let j = choose|j: int| 0 <= j < earlier.len() && earlier[j] == raw[i].sanitized()->0;
        assert(kept[j] == earlier[j]);
    }
}

/// A row of rank zero is never returned: every returned row comes from a row
/// of another rank. The labels of every returned row hold ASCII letters and
/// digits only, and its total is no NaN and not the largest finite value.
pub proof fn lemma_returned_rows(raw: Seq<SalesRow>)
    ensures
        forall|j: int|
            0 <= j < sanitized_rows(raw).len() ==> {
                let row = #[trigger] sanitized_rows(raw)[j];
                &&& exists|i: int|
                    0 <= i < raw.len() && raw[i].ranked != 0 && (#[trigger] raw[i]).sanitized()
                        == Some(row)
                &&& is_alphanumeric(row.brew_color)
                &&& is_alphanumeric(row.beer_style)
                &&& is_alphanumeric(row.location)
                &&& !row.total_sales.nan()
                &&& !row.total_sales.max_sentinel()
            },
{
    let kept = sanitized_rows(raw);
    assert forall|j: int| 0 <= j < kept.len() implies {
        let row = #[trigger] kept[j];
        &&& exists|i: int|
            0 <= i < raw.len() && raw[i].ranked != 0 && (#[trigger] raw[i]).sanitized() == Some(
                row,
            )
        &&& is_alphanumeric(row.brew_color)
        &&& is_alphanumeric(row.beer_style)
        &&& is_alphanumeric(row.location)
        &&& !row.total_sales.nan()
        &&& !row.total_sales.max_sentinel()
    } by {
        lemma_returned_row_has_origin(raw, j);
        let i = choose|i: int|
            0 <= i < raw.len() && (#[trigger] raw[i]).sanitized() == Some(kept[j]);
        raw[i].lemma_kept_labels();
        raw[i].lemma_kept_total();
        raw[i].lemma_kept_rank();
    }
}

/// No label of a returned row is empty, unless a row that is kept has a label
/// made of characters that all go in the cleaning.
pub proof fn lemma_returned_labels(raw: Seq<SalesRow>)
    ensures
        (forall|j: int|
            0 <= j < sanitized_rows(raw).len() ==> (#[trigger] sanitized_rows(
                raw,
            )[j]).has_clean_labels()) <==> (forall|i: int|
            0 <= i < raw.len() && raw[i].ranked != 0 ==> (#[trigger] raw[i]).has_lasting_labels()),
{
    let kept = sanitized_rows(raw);
    if forall|i: int|
        0 <= i < raw.len() && raw[i].ranked != 0 ==> (#[trigger] raw[i]).has_lasting_labels() {
        assert forall|j: int| 0 <= j < kept.len() implies (#[trigger] kept[j]).has_clean_labels() by {
            lemma_returned_row_has_origin(raw, j);
            let i = choose|i: int|
                0 <= i < raw.len() && (#[trigger] raw[i]).sanitized() == Some(kept[j]);
            raw[i].lemma_kept_labels();
        }
    }
    if forall|j: int| 0 <= j < kept.len() ==> (#[trigger] kept[j]).has_clean_labels() {
        assert forall|i: int| 0 <= i < raw.len() && raw[i].ranked != 0 implies (
        #[trigger] raw[i]).has_lasting_labels() by {
            lemma_accepted_row_is_returned(raw, i);
            raw[i].lemma_kept_labels();
        }
    }
}

/// The total of every returned row is finite, unless a row that is kept has an
/// infinite total.
pub proof fn lemma_returned_totals(raw: Seq<SalesRow>)
    ensures
        (forall|j: int|
            0 <= j < sanitized_rows(raw).len() ==> (#[trigger] sanitized_rows(
                raw,
            )[j]).total_sales.finite()) <==> (forall|i: int|
            0 <= i < raw.len() && raw[i].ranked != 0 ==> !(#[trigger] raw[i]).total_sales.infinite()),
{
    let kept = sanitized_rows(raw);
    if forall|i: int|
        0 <= i < raw.len() && raw[i].ranked != 0 ==> !(#[trigger] raw[i]).total_sales.infinite() {
        assert forall|j: int| 0 <= j < kept.len() implies (#[trigger] kept[j]).total_sales.finite() by {
            lemma_returned_row_has_origin(raw, j);
            let i = choose|i: int|
                0 <= i < raw.len() && (#[trigger] raw[i]).sanitized() == Some(kept[j]);
            raw[i].lemma_kept_total();
        }
    }
    if forall|j: int| 0 <= j < kept.len() ==> (#[trigger] kept[j]).total_sales.finite() {
        assert forall|i: int| 0 <= i < raw.len() && raw[i].ranked != 0 implies !(
        #[trigger] raw[i]).total_sales.infinite() by {
            lemma_accepted_row_is_returned(raw, i);
            raw[i].lemma_kept_total();
        }
    }
}

/// The rank of every returned row is at least one, unless a row has the
/// largest rank: that row is returned with the rank zero.
pub proof fn lemma_returned_ranks(raw: Seq<SalesRow>)
    ensures
        (forall|j: int|
            0 <= j < sanitized_rows(raw).len() ==> (#[trigger] sanitized_rows(raw)[j]).ranked >= 1)
            <==> (forall|i: int| 0 <= i < raw.len() ==> (#[trigger] raw[i]).ranked != u32::MAX),
{
    let kept = sanitized_rows(raw);
    if forall|i: int| 0 <= i < raw.len() ==> (#[trigger] raw[i]).ranked != u32::MAX {
        assert forall|j: int| 0 <= j < kept.len() implies (#[trigger] kept[j]).ranked >= 1 by {
            lemma_returned_row_has_origin(raw, j);
            let i = choose|i: int|
                0 <= i < raw.len() && (#[trigger] raw[i]).sanitized() == Some(kept[j]);
            raw[i].lemma_kept_rank();
        }
    }
    if forall|j: int| 0 <= j < kept.len() ==> (#[trigger] kept[j]).ranked >= 1 {
        assert forall|i: int| 0 <= i < raw.len() implies (#[trigger] raw[i]).ranked
            != u32::MAX by {
            if raw[i].ranked == u32::MAX {
                raw[i].lemma_kept_rank();
                lemma_accepted_row_is_returned(raw, i);
            }
        }
    }
}

/// Cleans every row that the store returned and drops the rows that the rank
/// pass rejects. A rejected row fails nothing but itself.
pub fn sanitize_rows(raw: Vec<SalesByColorRanked>) -> (kept: Vec<SalesByColorRanked>)
    ensures
        kept.deep_view() == sanitized_rows(raw.deep_view()),
{
    let ghost rows = raw.deep_view();
    let mut kept: Vec<SalesByColorRanked> = Vec::new();
    let all = raw.into_iter();
    for row in it: all
        invariant
            it.seq().len() == rows.len(),
            forall|i: int| 0 <= i < rows.len() ==> (#[trigger] it.seq()[i])@ == rows[i],
            kept.deep_view() == sanitized_rows(rows.take(it.index())),
    {
        let ghost done = it.index();
        let mut row = row;
        row.clean_string_fields();
        row.clean_f64_fields();
        match row.clean_u32_fields() {
            Ok(()) => kept.push(row),
            Err(_) => {},
        }
        proof {
            rows.lemma_filter_map_take_succ(|row: SalesRow| row.sanitized(), done);
        }
    }
    assert(rows.take(rows.len() as int) == rows);
    kept
}

} // verus!
