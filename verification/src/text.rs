//! Comparison of text.

use vstd::prelude::*;

verus! {

/// Whether two string slices hold the same characters: they do where they
/// hold the same bytes, since the bytes of a text give its characters.
pub fn same_text(left: &str, right: &str) -> (same: bool)
    ensures
        same == (left@ == right@),
{
    let left_bytes = left.as_bytes();
    let right_bytes = right.as_bytes();
    proof {
        vstd::utf8::encode_utf8_decode_utf8(left@);
        vstd::utf8::encode_utf8_decode_utf8(right@);
    }
    if left_bytes.len() != right_bytes.len() {
        return false;
    }
    let mut at: usize = 0;
    while at < left_bytes.len()
        invariant
            at <= left_bytes.len(),
            left_bytes.len() == right_bytes.len(),
            left_bytes@ == vstd::utf8::encode_utf8(left@),
            right_bytes@ == vstd::utf8::encode_utf8(right@),
            forall|before: int| 0 <= before < at ==> left_bytes@[before] == right_bytes@[before],
        decreases left_bytes.len() - at,
    {
        if left_bytes[at] != right_bytes[at] {
            return false;
        }
        at = at + 1;
    }
    assert(left_bytes@ =~= right_bytes@);
    true
}

/// Whether `items` holds an entry equal to `wanted`.
pub fn holds_text(items: &[String], wanted: &str) -> (found: bool)
    ensures
        found == items.deep_view().contains(wanted@),
{
    let mut at: usize = 0;
    while at < items.len()
        invariant
            at <= items.len(),
            forall|before: int| 0 <= before < at ==> items.deep_view()[before] != wanted@,
        decreases items.len() - at,
    {
        if same_text(items[at].as_str(), wanted) {
            assert(items.deep_view()[at as int] == wanted@);
            return true;
        }
        at = at + 1;
    }
    false
}

/// A copy of a list of texts.
pub fn copy_texts(items: &Vec<String>) -> (copy: Vec<String>)
    ensures
        copy.deep_view() == items.deep_view(),
{
    let mut copy: Vec<String> = Vec::new();
    let mut at: usize = 0;
    while at < items.len()
        invariant
            at <= items.len(),
            copy.len() == at,
            forall|before: int| 0 <= before < at ==> copy[before]@ == items[before]@,
        decreases items.len() - at,
    {
        copy.push(items[at].clone());
        at = at + 1;
    }
    assert(copy.deep_view() =~= items.deep_view());
    copy
}

} // verus!
