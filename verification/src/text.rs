//! Case folding of the parsers' input, and small text spec functions.
//!
//! Parsing folds its input with `str::to_lowercase`, whose full Unicode
//! mapping is named by `lower_of` and stated only where the documentation
//! is plain: on text made of ASCII characters and the eight suit glyphs it
//! coincides with the ASCII fold `lower`, since those characters' lowercase
//! mappings are exactly the ASCII ones and the glyphs have none.

use vstd::prelude::*;
use vstd::string::StrSliceExecFns;

verus! {

/// ASCII case folding of one character: 'A'..'Z' map to 'a'..'z', every
/// other character is unchanged.
pub open spec fn lower_char(c: char) -> char {
    if 65 <= c as u32 && c as u32 <= 90 {
        ((c as u32 + 32) as u32) as char
    } else {
        c
    }
}

/// The sequence with each character ASCII-lowercased.
pub open spec fn lower(s: Seq<char>) -> Seq<char> {
    Seq::new(s.len(), |i: int| lower_char(s[i]))
}

/// The Unicode lowercase of a character sequence, as `str::to_lowercase`
/// computes it; it depends on the characters alone.
pub uninterp spec fn lower_of(s: Seq<char>) -> Seq<char>;

/// Whether a character is ASCII or one of the eight suit glyphs (filled or
/// outline), none of which has a Unicode case mapping.
pub open spec fn char_ascii_or_glyph(c: char) -> bool {
    c as u32 <= 127 || c == '♣' || c == '♧' || c == '♦' || c == '♢' || c == '♥' || c == '♡' || c
        == '♠' || c == '♤'
}

/// Whether every character of the text is ASCII or a suit glyph.
pub open spec fn ascii_or_glyph(s: Seq<char>) -> bool
    decreases s.len(),
{
    if s.len() == 0 {
        true
    } else {
        char_ascii_or_glyph(s[0]) && ascii_or_glyph(s.drop_first())
    }
}

/// The case folding the parsers work over: `str::to_lowercase`'s mapping,
/// which on text of ASCII characters and suit glyphs is the ASCII fold.
pub open spec fn spec_fold(s: Seq<char>) -> Seq<char> {
    if ascii_or_glyph(s) {
        lower(s)
    } else {
        lower_of(s)
    }
}

/// Relies on str::to_lowercase: the result is the Unicode lowercase of the
/// text, a function of the characters alone; on text of ASCII characters
/// and suit glyphs the documented mappings are exactly the ASCII fold.
#[verifier::external_body]
pub(crate) fn lowercase(s: &str) -> (r: String)
    ensures
        r@ == lower_of(s@),
        ascii_or_glyph(s@) ==> r@ == lower(s@),
{
    s.to_lowercase()
}

/// The decimal digit character for a value below ten.
pub open spec fn digit_char(n: int) -> char {
    if n == 0 {
        '0'
    } else if n == 1 {
        '1'
    } else if n == 2 {
        '2'
    } else if n == 3 {
        '3'
    } else if n == 4 {
        '4'
    } else if n == 5 {
        '5'
    } else if n == 6 {
        '6'
    } else if n == 7 {
        '7'
    } else if n == 8 {
        '8'
    } else {
        '9'
    }
}

/// The decimal numeral, as characters, for a value below one hundred.
pub open spec fn decimal(n: int) -> Seq<char> {
    if n < 10 {
        seq![digit_char(n)]
    } else {
        seq![digit_char(n / 10), digit_char(n % 10)]
    }
}

/// Reports whether two texts hold exactly the same characters.
pub(crate) fn eq_str(s: &str, t: &str) -> (b: bool)
    ensures
        b == (s@ == t@),
{
    let n: usize = s.unicode_len();
    let m: usize = t.unicode_len();
    if n != m {
        proof {
            assert(s@.len() != t@.len());
        }
        return false;
    }
    let mut i: usize = 0;
    while i < n
        invariant
            i <= n,
            n == s@.len(),
            n == t@.len(),
            forall|j: int| 0 <= j < i ==> s@[j] == t@[j],
        decreases n - i,
    {
        let c = s.get_char(i);
        let d = t.get_char(i);
        if c != d {
            proof {
                assert(s@[i as int] != t@[i as int]);
            }
            return false;
        }
        i = i + 1;
    }
    proof {
        assert(s@ =~= t@);
    }
    true
}

} // verus!
