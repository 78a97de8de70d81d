//! Normalising the label columns of a sales row.

use vstd::prelude::*;

verus! {

/// An ASCII letter or digit.
pub open spec fn is_ascii_alphanumeric(c: char) -> bool {
    ('0' <= c && c <= '9') || ('A' <= c && c <= 'Z') || ('a' <= c && c <= 'z')
}

/// The placeholder written by the store for a missing label.
pub open spec fn null_marker() -> Seq<char> {
    "null"@
}

/// The label that stands for a missing one.
pub open spec fn unknown_label() -> Seq<char> {
    "Unknown"@
}

/// `label` with everything but ASCII letters and digits removed.
pub open spec fn strip_label(label: Seq<char>) -> Seq<char> {
    label.filter(|c: char| is_ascii_alphanumeric(c))
}

/// A cleaned label: a missing label (empty, or the store's null marker) becomes
/// the unknown label, any other has every character dropped that is no ASCII
/// letter or digit.
pub open spec fn clean_label(label: Seq<char>) -> Seq<char> {
    if label.len() == 0 || label == null_marker() {
        unknown_label()
    } else {
        strip_label(label)
    }
}

/// Every character of `label` is an ASCII letter or digit.
pub open spec fn is_alphanumeric(label: Seq<char>) -> bool {
    forall|i: int| 0 <= i < label.len() ==> is_ascii_alphanumeric(#[trigger] label[i])
}

/// Some character of `label` is an ASCII letter or digit.
pub open spec fn has_alphanumeric(label: Seq<char>) -> bool {
    exists|i: int| 0 <= i < label.len() && is_ascii_alphanumeric(#[trigger] label[i])
}

/// Stripping leaves ASCII letters and digits only, and leaves nothing exactly
/// where the label has none of them.
pub proof fn lemma_strip_label(label: Seq<char>)
    ensures
        is_alphanumeric(strip_label(label)),
        strip_label(label).len() == 0 <==> !has_alphanumeric(label),
{
    let keep = |c: char| is_ascii_alphanumeric(c);
    let stripped = label.filter(keep);
    assert forall|i: int| 0 <= i < stripped.len() implies is_ascii_alphanumeric(
        #[trigger] stripped[i],
    ) by {
        label.lemma_filter_pred(keep, i);
    }
    if has_alphanumeric(label) {
        let i = choose|i: int| 0 <= i < label.len() && is_ascii_alphanumeric(#[trigger] label[i]);
        label.lemma_filter_contains(keep, i);
    }
    if stripped.len() > 0 {
        assert(stripped.contains(stripped[0]));
        label.lemma_filter_contains_rev(keep, stripped[0]);
    }
}

/// A cleaned label holds ASCII letters and digits only. A missing label is
/// cleaned to the unknown label. The cleaned label is empty exactly where the
/// label has characters and none of them is an ASCII letter or digit.
pub proof fn lemma_clean_label(label: Seq<char>)
    ensures
        is_alphanumeric(clean_label(label)),
        label.len() == 0 || label == null_marker() ==> clean_label(label) == unknown_label(),
        clean_label(label).len() == 0 <==> label.len() > 0 && !has_alphanumeric(label),
{
    reveal_strlit("null");
    reveal_strlit("Unknown");
    lemma_strip_label(label);
    if label == null_marker() {
        assert(is_ascii_alphanumeric(label[0]));
    }
}

/// `String::push` appends one character to the end of the string.
pub assume_specification[ String::push ](s: &mut String, ch: char)
    ensures
        final(s)@ == old(s)@.push(ch),
;

/// Whether `c` is an ASCII letter or digit.
pub fn keeps(c: char) -> (kept: bool)
    ensures
        kept == is_ascii_alphanumeric(c),
{
    ('0' <= c && c <= '9') || ('A' <= c && c <= 'Z') || ('a' <= c && c <= 'z')
}

/// Copies the ASCII letters and digits of `label`, in order.
pub fn strip(label: &str) -> (stripped: String)
    ensures
        stripped@ == strip_label(label@),
{
    let mut stripped = String::new();
    let chars = label.chars();
    for c in it: chars
        invariant
            it.seq() == label@,
            stripped@ == strip_label(label@.take(it.index())),
    {
        proof {
            let i = it.index();
            assert(label@.take(i + 1) == label@.take(i).push(c));
            label@.take(i).lemma_filter_push(c, |c: char| is_ascii_alphanumeric(c));
        }
        if keeps(c) {
            stripped.push(c);
        }
    }
    assert(label@.take(label@.len() as int) == label@);
    stripped
}

/// `str`'s `==` holds exactly when both hold the same characters.
#[verifier::external_body]
fn same_text(left: &str, right: &str) -> (same: bool)
    ensures
        same == (left@ == right@),
{
    left == right
}

/// Cleans one label column.
pub fn clean(label: &str) -> (cleaned: String)
    ensures
        cleaned@ == clean_label(label@),
{
    if label.is_empty() || same_text(label, "null") {
        "Unknown".to_owned()
    } else {
        strip(label)
    }
}

} // verus!
