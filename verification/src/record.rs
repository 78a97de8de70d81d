//! One aggregate row of the ranking query and its three cleaning passes.

use vstd::prelude::*;
use crate::amount::{SalesAmount, MAX_BITS};
use crate::text::{clean, clean_label, has_alphanumeric, is_alphanumeric, lemma_clean_label};

verus! {

/// The message of the error that rejects a row whose rank is zero.
pub const RANK_ZERO_MESSAGE: &'static str = "Invalid value for ranked: 0";

/// Total sales of one location within a (colour, style) partition, with the
/// location's rank in that partition: 1 is the highest total.
#[derive(Debug, PartialEq, Eq)]
pub struct SalesByColorRanked {
    pub brew_color: String,
    pub beer_style: String,
    pub location: String,
    pub total_sales: SalesAmount,
    pub ranked: u32,
}

/// What a [`SalesByColorRanked`] holds.
pub struct SalesRow {
    pub brew_color: Seq<char>,
    pub beer_style: Seq<char>,
    pub location: Seq<char>,
    pub total_sales: SalesAmount,
    pub ranked: u32,
}

impl SalesRow {
    /// The row with its three labels cleaned.
    pub open spec fn clean_labels(self) -> SalesRow {
        SalesRow {
            brew_color: clean_label(self.brew_color),
            beer_style: clean_label(self.beer_style),
            location: clean_label(self.location),
            ..self
        }
    }

    /// The row with its total cleaned.
    pub open spec fn clean_total(self) -> SalesRow {
        SalesRow { total_sales: self.total_sales.cleaned(), ..self }
    }

    /// Whether the rank pass rejects the row: its rank is zero.
    pub open spec fn rejected(self) -> bool {
        self.ranked == 0
    }

    /// The row after the rank pass: the largest rank, which stands for a
    /// missing one, becomes zero and the row is kept with it; every other rank
    /// stays. A rejected row stays as it is.
    pub open spec fn clean_rank(self) -> SalesRow {
        if self.ranked == u32::MAX {
            SalesRow { ranked: 0, ..self }
        } else {
            self
        }
    }

    /// The row after all three passes, or `None` where the rank pass rejects it.
    pub open spec fn sanitized(self) -> Option<SalesRow> {
        let cleaned = self.clean_labels().clean_total();
        if cleaned.rejected() {
            None
        } else {
            Some(cleaned.clean_rank())
        }
    }

    /// The three labels are not empty and hold ASCII letters and digits only.
    pub open spec fn has_clean_labels(self) -> bool {
        &&& self.brew_color.len() > 0 && is_alphanumeric(self.brew_color)
        &&& self.beer_style.len() > 0 && is_alphanumeric(self.beer_style)
        &&& self.location.len() > 0 && is_alphanumeric(self.location)
    }

    /// Each of the three labels is empty or has an ASCII letter or digit: none
    /// is made of characters that all go in the cleaning.
    pub open spec fn has_lasting_labels(self) -> bool {
        &&& self.brew_color.len() == 0 || has_alphanumeric(self.brew_color)
        &&& self.beer_style.len() == 0 || has_alphanumeric(self.beer_style)
        &&& self.location.len() == 0 || has_alphanumeric(self.location)
    }

    /// The labels of a row that is kept hold ASCII letters and digits only.
    /// None of them is empty, unless a label of the row was made of characters
    /// that all go in the cleaning: such a label is kept empty.
    pub proof fn lemma_kept_labels(self)
        requires
            self.sanitized() is Some,
        ensures
            is_alphanumeric(self.sanitized()->0.brew_color),
            is_alphanumeric(self.sanitized()->0.beer_style),
            is_alphanumeric(self.sanitized()->0.location),
            self.sanitized()->0.has_clean_labels() <==> self.has_lasting_labels(),
    {
        lemma_clean_label(self.brew_color);
        lemma_clean_label(self.beer_style);
        lemma_clean_label(self.location);
    }

    /// The total of a row that is kept is no NaN and not the largest finite
    /// value; it is zero where the row's total was that value, a NaN or a zero.
    /// It is finite unless the row's total was infinite.
    pub proof fn lemma_kept_total(self)
        requires
            self.sanitized() is Some,
        ensures
            !self.sanitized()->0.total_sales.nan(),
            !self.sanitized()->0.total_sales.max_sentinel(),
            self.sanitized()->0.total_sales.finite() <==> !self.total_sales.infinite(),
            self.total_sales.max_sentinel() || self.total_sales.nan() || self.total_sales.zero()
                ==> self.sanitized()->0.total_sales.bits == 0,
    {
        self.total_sales.lemma_cleaned();
    }

    /// A row is rejected exactly where its rank is zero. A row of the largest
    /// rank is kept, with the rank zero that stands for a missing rank; every
    /// other row that is kept keeps its rank, which is at least one.
    pub proof fn lemma_kept_rank(self)
        ensures
            self.sanitized() is None <==> self.ranked == 0,
            self.ranked == u32::MAX ==> self.sanitized() is Some && self.sanitized()->0.ranked == 0,
            self.ranked != 0 && self.ranked != u32::MAX ==> self.sanitized()->0.ranked == self.ranked,
            self.sanitized() is Some ==> (self.sanitized()->0.ranked >= 1 <==> self.ranked
                != u32::MAX),
    {
    }
}

impl View for SalesByColorRanked {
    type V = SalesRow;

    open spec fn view(&self) -> SalesRow {
        SalesRow {
            brew_color: self.brew_color@,
            beer_style: self.beer_style@,
            location: self.location@,
            total_sales: self.total_sales,
            ranked: self.ranked,
        }
    }
}

impl Clone for SalesByColorRanked {
    fn clone(&self) -> (copy: Self)
        ensures
            copy@ == self@,
    {
        SalesByColorRanked {
            brew_color: self.brew_color.clone(),
            beer_style: self.beer_style.clone(),
            location: self.location.clone(),
            total_sales: self.total_sales,
            ranked: self.ranked,
        }
    }
}

impl DeepView for SalesByColorRanked {
    type V = SalesRow;

    open spec fn deep_view(&self) -> SalesRow {
        self@
    }
}

impl SalesByColorRanked {
    /// The row made of the five columns of a row of the store, in the order
    /// in which the ranking query selects them.
    pub fn from_fields(fields: (String, String, String, SalesAmount, u32)) -> (row: Self)
        ensures
            row@ == (SalesRow {
                brew_color: fields.0@,
                beer_style: fields.1@,
                location: fields.2@,
                total_sales: fields.3,
                ranked: fields.4,
            }),
    {
        let (brew_color, beer_style, location, total_sales, ranked) = fields;
        SalesByColorRanked { brew_color, beer_style, location, total_sales, ranked }
    }

    /// First pass: cleans the three labels.
    pub fn clean_string_fields(&mut self)
        ensures
            final(self)@ == old(self)@.clean_labels(),
    {
        self.brew_color = clean(self.brew_color.as_str());
        self.beer_style = clean(self.beer_style.as_str());
        self.location = clean(self.location.as_str());
    }

    /// Second pass: cleans the total.
    pub fn clean_f64_fields(&mut self)
        ensures
            final(self)@ == old(self)@.clean_total(),
    {
        let total = self.total_sales;
        if total.to_bits() == MAX_BITS || total.is_nan() || total.is_zero() {
            self.total_sales = SalesAmount::from_bits(0);
        }
    }

    /// Third pass: rejects a row whose rank is zero, and turns the largest
    /// rank into zero.
    pub fn clean_u32_fields(&mut self) -> (outcome: Result<(), &'static str>)
        ensures
            final(self)@ == old(self)@.clean_rank(),
            outcome is Err <==> old(self)@.rejected(),
            outcome matches Err(message) ==> message@ == RANK_ZERO_MESSAGE@,
    {
        if self.ranked == u32::MAX {
            self.ranked = 0;
        } else if self.ranked == 0 {
            return Err(RANK_ZERO_MESSAGE);
        }
        Ok(())
    }
}

} // verus!
