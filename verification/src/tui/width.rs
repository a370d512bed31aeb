//! Display widths of text, as the `unicode-width` crate measures them.
use vstd::prelude::*;

use unicode_width::{UnicodeWidthChar, UnicodeWidthStr};

verus! {

/// The display width `unicode-width` gives a character: `None` for a control character.
pub uninterp spec fn unicode_char_width(c: char) -> Option<usize>;

/// The display width `unicode-width` gives a string.
pub uninterp spec fn unicode_str_width(s: Seq<char>) -> usize;

/// The columns a character takes when painted: its width, 0 for a control character.
pub open spec fn char_cols(c: char) -> nat {
    match unicode_char_width(c) {
        Some(w) => w as nat,
        None => 0,
    }
}

/// The columns the characters of `s` take one by one.
pub open spec fn cols(s: Seq<char>) -> nat
    decreases s.len(),
{
    if s.len() == 0 {
        0
    } else {
        cols(s.drop_last()) + char_cols(s.last())
    }
}

/// The width `unicode-width` gives `s` is the columns its characters take one by one (true of
/// printable ASCII text, not of every text: an emoji sequence joined by U+200D, for one, is
/// measured as a whole).
pub open spec fn widths_agree(s: Seq<char>) -> bool {
    unicode_str_width(s) as nat == cols(s)
}

/// The columns of two texts one after the other add up.
pub proof fn lemma_cols_concat(a: Seq<char>, b: Seq<char>)
    ensures
        cols(a + b) == cols(a) + cols(b),
    decreases b.len(),
{
    if b.len() == 0 {
        assert(a + b =~= a);
    } else {
        lemma_cols_concat(a, b.drop_last());
        assert((a + b).drop_last() =~= a + b.drop_last());
        assert((a + b).last() == b.last());
    }
}

/// The columns of a single character.
pub proof fn lemma_cols_single(c: char)
    ensures
        cols(seq![c]) == char_cols(c),
{
    assert(seq![c].drop_last() =~= Seq::<char>::empty());
    assert(cols(Seq::<char>::empty()) == 0);
}

/// `UnicodeWidthChar::width`: the display width of `c`, `None` for a control character (the
/// contract names the result, `unicode_char_width`; the width tables are the Unicode data). The
/// crate answers ASCII before its tables: printable ASCII (U+0020 to U+007E) is one column, and
/// the C0 and C1 control codes (below U+0020, and U+007F to U+009F) have no width.
#[verifier::external_body]
pub fn char_width(c: char) -> (r: Option<usize>)
    ensures
        r == unicode_char_width(c),
        0x20 <= (c as u32) && (c as u32) < 0x7F ==> r == Some(1usize),
        (c as u32) < 0x20 || (0x7F <= (c as u32) && (c as u32) < 0xA0) ==> r is None,
{
    UnicodeWidthChar::width(c)
}

/// `UnicodeWidthStr::width`: the display width of `s` (the contract names the result,
/// `unicode_str_width`; the width of a string is not stated as the sum of its characters'
/// widths, since the crate treats some sequences specially). A string of printable ASCII
/// characters is as many columns wide as it has characters: the crate counts each character up
/// to U+00A0 as one column, but for a `\r` before a `\n`.
#[verifier::external_body]
pub fn str_width(s: &str) -> (r: usize)
    ensures
        r == unicode_str_width(s@),
        (forall|i: int| 0 <= i < s@.len() ==> 0x20 <= #[trigger] (s@[i] as u32) && (s@[i] as u32) < 0x7F) ==> r
            == s@.len(),
{
    UnicodeWidthStr::width(s)
}

/// The painted width of `c` (0 for a control character).
pub fn char_cols_exec(c: char) -> (r: usize)
    ensures
        r == char_cols(c),
{
    match char_width(c) {
        Some(w) => w,
        None => 0,
    }
}

} // verus!
