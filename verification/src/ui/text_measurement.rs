//! Character classes used when estimating text widths.
use vstd::prelude::*;

verus! {

/// Whether `c` is drawn full width: hiragana, katakana, the CJK unified
/// ideographs and extension A, halfwidth and fullwidth forms, hangul
/// syllables and jamo, CJK radicals, Kangxi radicals, CJK symbols and
/// punctuation, CJK strokes, enclosed CJK letters and months, CJK
/// compatibility, compatibility ideographs and compatibility forms.
pub open spec fn is_fullwidth(c: char) -> bool {
    ||| ('\u{3040}' <= c && c <= '\u{309F}')
    ||| ('\u{30A0}' <= c && c <= '\u{30FF}')
    ||| ('\u{4E00}' <= c && c <= '\u{9FFF}')
    ||| ('\u{3400}' <= c && c <= '\u{4DBF}')
    ||| ('\u{FF00}' <= c && c <= '\u{FFEF}')
    ||| ('\u{AC00}' <= c && c <= '\u{D7AF}')
    ||| ('\u{1100}' <= c && c <= '\u{115F}')
    ||| ('\u{2E80}' <= c && c <= '\u{2EFF}')
    ||| ('\u{2F00}' <= c && c <= '\u{2FDF}')
    ||| ('\u{3000}' <= c && c <= '\u{303F}')
    ||| ('\u{31C0}' <= c && c <= '\u{31EF}')
    ||| ('\u{3200}' <= c && c <= '\u{32FF}')
    ||| ('\u{3300}' <= c && c <= '\u{33FF}')
    ||| ('\u{F900}' <= c && c <= '\u{FAFF}')
    ||| ('\u{FE30}' <= c && c <= '\u{FE4F}')
}

/// Whether `ch` is drawn full width (see `is_fullwidth`).
pub fn is_fullwidth_char(ch: char) -> (b: bool)
    ensures
        b == is_fullwidth(ch),
{
    match ch {
        '\u{3040}'..='\u{309F}' => true,
        '\u{30A0}'..='\u{30FF}' => true,
        '\u{4E00}'..='\u{9FFF}' => true,
        '\u{3400}'..='\u{4DBF}' => true,
        '\u{FF00}'..='\u{FFEF}' => true,
        '\u{AC00}'..='\u{D7AF}' => true,
        _ => {
            ('\u{1100}' <= ch && ch <= '\u{115F}') || ('\u{2E80}' <= ch && ch <= '\u{2EFF}') || (
            '\u{2F00}' <= ch && ch <= '\u{2FDF}') || ('\u{3000}' <= ch && ch <= '\u{303F}') || (
            '\u{31C0}' <= ch && ch <= '\u{31EF}') || ('\u{3200}' <= ch && ch <= '\u{32FF}') || (
            '\u{3300}' <= ch && ch <= '\u{33FF}') || ('\u{F900}' <= ch && ch <= '\u{FAFF}') || (
            '\u{FE30}' <= ch && ch <= '\u{FE4F}')
        },
    }
}

} // verus!
