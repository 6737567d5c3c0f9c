//! Fixed-column field extraction. Columns count grapheme clusters, not bytes;
//! a field's range is clamped to the line, its text trimmed, then parsed.
use crate::text::{
    decimal_text, decimal_within, grapheme_clusters, lemma_decimal_round_trip, trim_text, trimmed,
};
use vstd::prelude::*;

verus! {

broadcast use vstd::seq_lib::group_seq_properties;

/// The texts of a line's grapheme clusters.
pub open spec fn cluster_views(g: Seq<String>) -> Seq<Seq<char>> {
    g.map_values(|x: String| x@)
}

/// The clusters of columns `[start, end)`, the range clamped to the line.
pub open spec fn column_range(g: Seq<Seq<char>>, start: int, end: int) -> Seq<Seq<char>> {
    let hi = if end < g.len() { end } else { g.len() as int };
    let lo = if start < hi { start } else { hi };
    g.subrange(lo, hi)
}

/// The trimmed text of columns `[start, end)`.
pub open spec fn field_text(g: Seq<Seq<char>>, start: int, end: int) -> Seq<char> {
    trimmed(column_range(g, start, end).flatten())
}

/// The 32-bit integer held in columns `[start, end)`, if they hold one.
pub open spec fn field_i32(g: Seq<Seq<char>>, start: int, end: int) -> Option<i32> {
    match decimal_within(field_text(g, start, end), i32::MIN as int, i32::MAX as int) {
        Some(v) => Some(v as i32),
        None => None,
    }
}

/// The 16-bit integer held in columns `[start, end)`, if they hold one.
pub open spec fn field_i16(g: Seq<Seq<char>>, start: int, end: int) -> Option<i16> {
    match decimal_within(field_text(g, start, end), i16::MIN as int, i16::MAX as int) {
        Some(v) => Some(v as i16),
        None => None,
    }
}

/// Decoding a field and rendering it again reproduces the trimmed text of
/// its columns: a text field is that text, and an integer field written back
/// in decimal is that text whenever the columns held the integer in shortest
/// form (no sign for a non-negative value, no leading zeros).
pub proof fn lemma_field_round_trip(g: Seq<Seq<char>>, start: int, end: int, w: i32)
    requires
        field_text(g, start, end) == decimal_text(w as int),
    ensures
        field_i32(g, start, end) == Some(w),
        decimal_text(field_i32(g, start, end)->0 as int) == field_text(g, start, end),
{
    lemma_decimal_round_trip(w as int);
}

/// A field that did not parse under its declared type.
pub struct DecodeError {
    /// Name of the field.
    pub field: String,
    /// The trimmed text found in its columns.
    pub text: String,
}

/// Splits a line into grapheme clusters, the units that columns count.
pub fn line_clusters(line: &str) -> (r: Vec<String>)
    ensures
        cluster_views(r@) == grapheme_clusters(line@),
{
    crate::text::graphemes(line)
}

/// The trimmed text of columns `[start, end)`.
pub fn column_text(g: &Vec<String>, start: usize, end: usize) -> (r: String)
    ensures
        r@ == field_text(cluster_views(g@), start as int, end as int),
{
    let ghost gv = cluster_views(g@);
    let hi: usize = if end < g.len() { end } else { g.len() };
    let lo: usize = if start < hi { start } else { hi };
    let mut joined = String::new();
    let mut i: usize = lo;
    while i < hi
        invariant
            lo <= i <= hi <= g@.len(),
            gv == cluster_views(g@),
            joined@ == gv.subrange(lo as int, i as int).flatten(),
        decreases hi - i,
    {
        proof {
            assert(gv.subrange(lo as int, i + 1) =~= gv.subrange(lo as int, i as int).push(gv[i as int]));
            gv.subrange(lo as int, i as int).lemma_flatten_push(gv[i as int]);
        }
        joined.append(g[i].as_str());
        i = i + 1;
    }
    trim_text(joined.as_str())
}

fn field_error(field: &str, text: String) -> (e: DecodeError)
    ensures
        e.field@ == field@,
        e.text@ == text@,
{
    DecodeError { field: String::from_str(field), text }
}

/// The 32-bit integer in columns `[start, end)`, or the error naming `field`.
pub fn decode_i32(g: &Vec<String>, start: usize, end: usize, field: &str) -> (r: Result<i32, DecodeError>)
    ensures
        match r {
            Ok(v) => field_i32(cluster_views(g@), start as int, end as int) == Some(v),
            Err(e) => field_i32(cluster_views(g@), start as int, end as int) is None
                && e.field@ == field@,
        },
{
    let text = column_text(g, start, end);
    match crate::text::parse_decimal(text.as_str(), i32::MIN as i64, i32::MAX as i64) {
        Some(v) => Ok(v as i32),
        None => Err(field_error(field, text)),
    }
}

/// The 16-bit integer in columns `[start, end)`, or the error naming `field`.
pub fn decode_i16(g: &Vec<String>, start: usize, end: usize, field: &str) -> (r: Result<i16, DecodeError>)
    ensures
        match r {
            Ok(v) => field_i16(cluster_views(g@), start as int, end as int) == Some(v),
            Err(e) => field_i16(cluster_views(g@), start as int, end as int) is None
                && e.field@ == field@,
        },
{
    let text = column_text(g, start, end);
    match crate::text::parse_decimal(text.as_str(), i16::MIN as i64, i16::MAX as i64) {
        Some(v) => Ok(v as i16),
        None => Err(field_error(field, text)),
    }
}

} // verus!
