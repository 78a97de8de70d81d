//! The ranking that the store gives, and what sanitising keeps of it.
//!
//! The ranks are the store's: the ranking query numbers the rows of every
//! (colour, style) partition. The library hands the rows on, cleaned, so what
//! it owes is to leave that ranking intact.

use vstd::prelude::*;
use crate::engine::{lemma_sanitized_rows_in_order, sanitized_rows};
use crate::record::SalesRow;

verus! {

/// Two rows of one partition: they have the same colour and the same style.
pub open spec fn same_partition(left: SalesRow, right: SalesRow) -> bool {
    left.brew_color == right.brew_color && left.beer_style == right.beer_style
}

/// The number of rows of `rows` that lie in the partition of `row`.
pub open spec fn partition_size(rows: Seq<SalesRow>, row: SalesRow) -> nat {
    rows.filter(|other: SalesRow| same_partition(other, row)).len()
}

/// The rows are ranked within their partitions: a rank is a number from 1 to
/// the size of the row's partition, no two rows of a partition have the same
/// rank, and of two rows of a partition the one of smaller rank has the total
/// that is not the smaller one. Rows of equal total may have their ranks
/// either way round.
pub open spec fn ranked_by_partition(rows: Seq<SalesRow>) -> bool {
    &&& forall|i: int|
        0 <= i < rows.len() ==> 1 <= (#[trigger] rows[i]).ranked <= partition_size(rows, rows[i])
    &&& forall|i: int, j: int|
        0 <= i < rows.len() && 0 <= j < rows.len() && i != j && same_partition(
            #[trigger] rows[i],
            #[trigger] rows[j],
        ) ==> rows[i].ranked != rows[j].ranked
    &&& forall|i: int, j: int|
        0 <= i < rows.len() && 0 <= j < rows.len() && same_partition(
            #[trigger] rows[i],
            #[trigger] rows[j],
        ) && rows[i].ranked < rows[j].ranked ==> rows[i].total_sales.order_key()
            >= rows[j].total_sales.order_key()
}

/// Cleaning the labels of `rows` joins no two partitions: rows whose cleaned
/// colours and styles are the same had the same colour and style before.
pub open spec fn partitions_stay_apart(rows: Seq<SalesRow>) -> bool {
    forall|i: int, j: int|
        0 <= i < rows.len() && 0 <= j < rows.len() && same_partition(
            (#[trigger] rows[i]).clean_labels(),
            (#[trigger] rows[j]).clean_labels(),
        ) ==> same_partition(rows[i], rows[j])
}

/// No total of `rows` is a NaN or the largest finite value, and no rank is the
/// largest rank: the values that cleaning replaces by a zero that no ranking
/// knows of.
pub open spec fn free_of_sentinels(rows: Seq<SalesRow>) -> bool {
    forall|i: int|
        0 <= i < rows.len() ==> {
            &&& !(#[trigger] rows[i]).total_sales.nan()
            &&& !rows[i].total_sales.max_sentinel()
            &&& rows[i].ranked != u32::MAX
        }
}

proof fn lemma_filter_len_pointwise(
    left: Seq<SalesRow>,
    keep_left: spec_fn(SalesRow) -> bool,
    right: Seq<SalesRow>,
    keep_right: spec_fn(SalesRow) -> bool,
)
    requires
        left.len() == right.len(),
        forall|k: int| 0 <= k < left.len() ==> keep_left(left[k]) == keep_right(right[k]),
    ensures
        left.filter(keep_left).len() == right.filter(keep_right).len(),
    decreases left.len(),
{
    reveal(Seq::filter);
    if left.len() > 0 {
        lemma_filter_len_pointwise(left.drop_last(), keep_left, right.drop_last(), keep_right);
    }
}

proof fn lemma_filter_keeps_all(rows: Seq<SalesRow>, keep: spec_fn(SalesRow) -> bool)
    requires
        forall|k: int| 0 <= k < rows.len() ==> keep(rows[k]),
    ensures
        rows.filter(keep) == rows,
    decreases rows.len(),
{
    reveal(Seq::filter);
    if rows.len() > 0 {
        lemma_filter_keeps_all(rows.drop_last(), keep);
        assert(rows.drop_last().push(rows.last()) == rows);
    }
}

/// Sanitising keeps a ranking that the store gave: where the rows are ranked
/// within their partitions, hold none of the values that cleaning replaces, and
/// cleaning their labels joins no two partitions, every row is returned and
/// the returned rows are ranked within their partitions.
pub proof fn lemma_sanitizing_keeps_ranking(raw: Seq<SalesRow>)
    requires
        ranked_by_partition(raw),
        free_of_sentinels(raw),
        partitions_stay_apart(raw),
    ensures
        sanitized_rows(raw).len() == raw.len(),
        ranked_by_partition(sanitized_rows(raw)),
{
    let kept = sanitized_rows(raw);
    let accepts = |row: SalesRow| !row.rejected();
    lemma_sanitized_rows_in_order(raw);
    assert(raw.filter(accepts) == raw) by {
        lemma_filter_keeps_all(raw, accepts);
    }
    assert forall|i: int| 0 <= i < raw.len() implies {
        &&& (#[trigger] kept[i]).ranked == raw[i].ranked
        &&& kept[i].total_sales.order_key() == raw[i].total_sales.order_key()
        &&& kept[i].brew_color == raw[i].clean_labels().brew_color
        &&& kept[i].beer_style == raw[i].clean_labels().beer_style
    } by {
        raw[i].total_sales.lemma_cleaned();
    }
    assert forall|i: int| 0 <= i < kept.len() implies partition_size(kept, #[trigger] kept[i])
        == partition_size(raw, raw[i]) by {
        lemma_filter_len_pointwise(
            kept,
            |other: SalesRow| same_partition(other, kept[i]),
            raw,
            |other: SalesRow| same_partition(other, raw[i]),
        );
    }
}

} // verus!
