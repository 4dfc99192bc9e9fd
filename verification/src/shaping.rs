//! Text shaping done by outside code: Unicode bidirectional reordering
//! and case folding. Both results are functions of the input text
//! alone, so they are given names that the callers' contracts use.

use vstd::prelude::*;

verus! {

/// The visual reordering of `s` under the Unicode bidirectional
/// algorithm, paragraph by paragraph.
pub uninterp spec fn bidi_of(s: Seq<char>) -> Seq<char>;

/// The Unicode lowercase mapping of `s`.
pub uninterp spec fn lower_of(s: Seq<char>) -> Seq<char>;

/// Reorder mixed-direction text into display order, so names written
/// in right-to-left scripts render legibly.
///
/// Relies on unicode_bidi::BidiInfo: `new` resolves embedding levels
/// and `reorder_line` returns each paragraph in visual order; the
/// result depends on the characters alone.
#[verifier::external_body]
pub(crate) fn to_bidi_string(s: &str) -> (r: String)
    ensures
        r@ == bidi_of(s@),
{
    let info = unicode_bidi::BidiInfo::new(s, None);
    let mut out = String::new();
    for para in &info.paragraphs {
        out.push_str(&info.reorder_line(para, para.range.clone()));
    }
    out
}

/// Lowercase a string.
///
/// Relies on str::to_lowercase: the Unicode lowercase mapping, a
/// function of the characters alone.
#[verifier::external_body]
pub(crate) fn lowercase(s: &str) -> (r: String)
    ensures
        r@ == lower_of(s@),
{
    s.to_lowercase()
}

} // verus!
