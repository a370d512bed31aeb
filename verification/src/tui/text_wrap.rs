//! Word-aware wrapping of text to a number of display columns.
use vstd::prelude::*;

use crate::command::string_views;
use crate::text::{char_is_ws, chars_of, find_from, find_in, is_ws, lemma_find_from_facts, push_char, string_from_range};
use crate::tui::width::{
    char_cols, char_cols_exec, cols, lemma_cols_concat, lemma_cols_single, str_width, unicode_str_width, widths_agree,
};

verus! {

/// The words found so far in a prefix `p` of a text, and the word being read at its end.
pub open spec fn words_state(p: Seq<char>) -> (Seq<Seq<char>>, Seq<char>)
    decreases p.len(),
{
    if p.len() == 0 {
        (Seq::empty(), Seq::empty())
    } else {
        let (ws, cur) = words_state(p.drop_last());
        let c = p.last();
        if is_ws(c) {
            if cur.len() > 0 {
                (ws.push(cur), Seq::empty())
            } else {
                (ws, Seq::empty())
            }
        } else {
            (ws, cur.push(c))
        }
    }
}

/// The maximal runs of non-white-space characters of `s` (`str::split_whitespace`).
pub open spec fn spec_words(s: Seq<char>) -> Seq<Seq<char>> {
    let (ws, cur) = words_state(s);
    if cur.len() > 0 {
        ws.push(cur)
    } else {
        ws
    }
}

/// The pieces of a word cut so far from a prefix `p` of it: the finished pieces, the piece
/// being filled, and its columns. A character that does not fit in `max_width` columns starts
/// a new piece, unless the piece is empty.
pub open spec fn hard_state(p: Seq<char>, max_width: nat) -> (Seq<Seq<char>>, Seq<char>, nat)
    decreases p.len(),
{
    if p.len() == 0 {
        (Seq::empty(), Seq::empty(), 0)
    } else {
        let (ls, cur, w) = hard_state(p.drop_last(), max_width);
        let c = p.last();
        let cw = char_cols(c);
        if w + cw > max_width && cur.len() > 0 {
            (ls.push(cur), seq![c], cw)
        } else {
            (ls, cur.push(c), w + cw)
        }
    }
}

/// A word too wide for `max_width` columns cut into pieces that fit (a single character wider
/// than the line stays whole).
pub open spec fn spec_hard_wrap(word: Seq<char>, max_width: nat) -> Seq<Seq<char>> {
    let (ls, cur, _) = hard_state(word, max_width);
    if cur.len() > 0 {
        ls.push(cur)
    } else {
        ls
    }
}

/// What `hard_state` keeps while cutting: the piece being filled takes `w` columns, every piece
/// fits the line or is a single character, no finished piece is empty, and the pieces and the
/// piece being filled spell the prefix read so far.
proof fn lemma_hard_state(p: Seq<char>, max_width: nat)
    ensures
        ({
            let (ls, cur, w) = hard_state(p, max_width);
            &&& w == cols(cur)
            &&& cols(cur) <= max_width || cur.len() == 1
            &&& forall|i: int| 0 <= i < ls.len() ==> (cols(#[trigger] ls[i]) <= max_width || ls[i].len() == 1)
            &&& forall|i: int| 0 <= i < ls.len() ==> (#[trigger] ls[i]).len() > 0
            &&& ls.flatten() + cur == p
        }),
    decreases p.len(),
{
    broadcast use Seq::lemma_flatten_push;

    if p.len() > 0 {
        lemma_hard_state(p.drop_last(), max_width);
        let (ls, cur, w) = hard_state(p.drop_last(), max_width);
        let c = p.last();
        assert(cur.push(c).drop_last() =~= cur);
        assert(seq![c].drop_last() =~= Seq::<char>::empty());
        assert(cols(Seq::<char>::empty()) == 0);
        assert(seq![c].last() == c);
        assert(cols(seq![c]) == char_cols(c));
        assert(p.drop_last().push(c) =~= p);
        assert(ls.flatten() + cur.push(c) =~= (ls.flatten() + cur).push(c));
        assert(ls.push(cur).flatten() + seq![c] =~= (ls.flatten() + cur).push(c));
    }
}

/// Cutting a word loses nothing and every piece fits: the pieces spell the word, and each
/// takes at most `max_width` columns unless it is a single character wider than the line.
pub proof fn law_hard_wrap_pieces_fit(word: Seq<char>, max_width: nat)
    ensures
        spec_hard_wrap(word, max_width).flatten() == word,
        forall|i: int|
            0 <= i < spec_hard_wrap(word, max_width).len() ==> (cols(#[trigger] spec_hard_wrap(word, max_width)[i])
                <= max_width || spec_hard_wrap(word, max_width)[i].len() == 1),
{
    broadcast use Seq::lemma_flatten_push;

    lemma_hard_state(word, max_width);
    let (ls, cur, w) = hard_state(word, max_width);
    if cur.len() == 0 {
        assert(ls.flatten() + cur =~= ls.flatten());
    }
}

/// The lines filled from the words `ws`: the finished lines, the line being filled and its
/// columns. A word wider than the line is cut on lines of its own; another word joins the
/// current line after a space when it fits, and starts a new line otherwise.
pub open spec fn wrap_state(ws: Seq<Seq<char>>, max_width: nat) -> (Seq<Seq<char>>, Seq<char>, nat)
    decreases ws.len(),
{
    if ws.len() == 0 {
        (Seq::empty(), Seq::empty(), 0)
    } else {
        let (ls, cur, cw) = wrap_state(ws.drop_last(), max_width);
        let word = ws.last();
        let ww = unicode_str_width(word) as nat;
        if ww > max_width {
            if cur.len() > 0 {
                (ls.push(cur) + spec_hard_wrap(word, max_width), Seq::empty(), 0)
            } else {
                (ls + spec_hard_wrap(word, max_width), Seq::empty(), cw)
            }
        } else {
            let needed = if cur.len() == 0 {
                ww
            } else {
                cw + 1 + ww
            };
            if needed > max_width {
                (ls.push(cur), word, ww)
            } else if cur.len() == 0 {
                (ls, word, ww)
            } else {
                (ls, cur + seq![' '] + word, needed)
            }
        }
    }
}

/// `text` wrapped to `max_width` display columns: nothing for no columns, one empty line for
/// an empty text, the text itself when it fits; otherwise its words filled into lines (see
/// `wrap_state`), at least one line.
pub open spec fn spec_wrap_line(text: Seq<char>, max_width: usize) -> Seq<Seq<char>> {
    if max_width == 0 {
        Seq::empty()
    } else if text.len() == 0 {
        seq![Seq::empty()]
    } else if unicode_str_width(text) <= max_width {
        seq![text]
    } else {
        let (ls, cur, _) = wrap_state(spec_words(text), max_width as nat);
        let all = if cur.len() > 0 {
            ls.push(cur)
        } else {
            ls
        };
        if all.len() == 0 {
            seq![Seq::empty()]
        } else {
            all
        }
    }
}

/// The characters of `s` that are not white space, in order.
pub open spec fn non_ws(s: Seq<char>) -> Seq<char>
    decreases s.len(),
{
    if s.len() == 0 {
        Seq::empty()
    } else if is_ws(s.last()) {
        non_ws(s.drop_last())
    } else {
        non_ws(s.drop_last()).push(s.last())
    }
}

/// `s` holds no white space.
pub open spec fn no_ws(s: Seq<char>) -> bool {
    forall|i: int| 0 <= i < s.len() ==> !is_ws(#[trigger] s[i])
}

/// Every character of `s` takes at most `max_width` columns.
pub open spec fn chars_fit(s: Seq<char>, max_width: nat) -> bool {
    forall|i: int| 0 <= i < s.len() ==> char_cols(#[trigger] s[i]) <= max_width
}

proof fn lemma_non_ws_concat(a: Seq<char>, b: Seq<char>)
    ensures
        non_ws(a + b) == non_ws(a) + non_ws(b),
    decreases b.len(),
{
    if b.len() == 0 {
        assert(a + b =~= a);
        assert(non_ws(a) + non_ws(b) =~= non_ws(a));
    } else {
        lemma_non_ws_concat(a, b.drop_last());
        assert((a + b).drop_last() =~= a + b.drop_last());
        assert((a + b).last() == b.last());
        if !is_ws(b.last()) {
            assert(non_ws(a) + non_ws(b.drop_last()).push(b.last()) =~= (non_ws(a) + non_ws(b.drop_last())).push(
                b.last(),
            ));
        }
    }
}

proof fn lemma_non_ws_of_no_ws(s: Seq<char>)
    requires
        no_ws(s),
    ensures
        non_ws(s) == s,
    decreases s.len(),
{
    if s.len() > 0 {
        assert(no_ws(s.drop_last())) by {
            assert forall|i: int| 0 <= i < s.drop_last().len() implies !is_ws(#[trigger] s.drop_last()[i]) by {
                assert(s.drop_last()[i] == s[i]);
            }
        }
        lemma_non_ws_of_no_ws(s.drop_last());
        assert(!is_ws(s[s.len() - 1]));
        assert(s.drop_last().push(s.last()) =~= s);
    }
}

/// What `words_state` keeps: the words and the word being read spell the characters read so
/// far that are not white space, no word is empty or holds white space, and where every
/// character read fits `max_width` columns, so does every character of the words.
proof fn lemma_words_state(p: Seq<char>, max_width: nat)
    ensures
        ({
            let (ws, cur) = words_state(p);
            &&& non_ws(p) == ws.flatten() + cur
            &&& no_ws(cur)
            &&& forall|i: int| 0 <= i < ws.len() ==> (#[trigger] ws[i]).len() > 0 && no_ws(ws[i])
            &&& chars_fit(p, max_width) ==> chars_fit(cur, max_width) && forall|i: int|
                0 <= i < ws.len() ==> chars_fit(#[trigger] ws[i], max_width)
        }),
    decreases p.len(),
{
    broadcast use Seq::lemma_flatten_push;

    if p.len() == 0 {
        assert(Seq::<Seq<char>>::empty().flatten() + Seq::<char>::empty() =~= Seq::<char>::empty());
    } else {
        let q = p.drop_last();
        let c = p.last();
        lemma_words_state(q, max_width);
        let (ws, cur) = words_state(q);
        if chars_fit(p, max_width) {
            assert(chars_fit(q, max_width)) by {
                assert forall|i: int| 0 <= i < q.len() implies char_cols(#[trigger] q[i]) <= max_width by {
                    assert(q[i] == p[i]);
                }
            }
            assert(char_cols(p[p.len() - 1]) <= max_width);
        }
        if is_ws(c) {
            if cur.len() > 0 {
                assert(ws.push(cur).flatten() + Seq::<char>::empty() =~= ws.flatten() + cur);
            } else {
                assert(ws.flatten() + Seq::<char>::empty() =~= ws.flatten() + cur);
            }
        } else {
            assert(ws.flatten() + cur.push(c) =~= (ws.flatten() + cur).push(c));
            assert(no_ws(cur.push(c))) by {
                assert forall|i: int| 0 <= i < cur.push(c).len() implies !is_ws(#[trigger] cur.push(c)[i]) by {
                    if i < cur.len() {
                        assert(cur.push(c)[i] == cur[i]);
                    }
                }
            }
            if chars_fit(p, max_width) {
                assert forall|i: int| 0 <= i < cur.push(c).len() implies char_cols(#[trigger] cur.push(c)[i])
                    <= max_width by {
                    if i < cur.len() {
                        assert(cur.push(c)[i] == cur[i]);
                    }
                }
            }
        }
    }
}

/// A text without white space is its own single word.
proof fn lemma_words_of_no_ws(p: Seq<char>)
    requires
        no_ws(p),
    ensures
        words_state(p) == (Seq::<Seq<char>>::empty(), p),
    decreases p.len(),
{
    if p.len() > 0 {
        assert(no_ws(p.drop_last())) by {
            assert forall|i: int| 0 <= i < p.drop_last().len() implies !is_ws(#[trigger] p.drop_last()[i]) by {
                assert(p.drop_last()[i] == p[i]);
            }
        }
        lemma_words_of_no_ws(p.drop_last());
        assert(!is_ws(p[p.len() - 1]));
        assert(p.drop_last().push(p.last()) =~= p);
    }
}

/// Every piece `hard_state` cuts fits the line when every character does.
proof fn lemma_hard_state_fits(p: Seq<char>, max_width: nat)
    requires
        chars_fit(p, max_width),
    ensures
        ({
            let (ls, cur, w) = hard_state(p, max_width);
            &&& cols(cur) <= max_width
            &&& forall|i: int| 0 <= i < ls.len() ==> cols(#[trigger] ls[i]) <= max_width
        }),
    decreases p.len(),
{
    lemma_hard_state(p, max_width);
    if p.len() > 0 {
        let q = p.drop_last();
        assert(chars_fit(q, max_width)) by {
            assert forall|i: int| 0 <= i < q.len() implies char_cols(#[trigger] q[i]) <= max_width by {
                assert(q[i] == p[i]);
            }
        }
        lemma_hard_state_fits(q, max_width);
        lemma_hard_state(q, max_width);
        let c = p.last();
        assert(char_cols(p[p.len() - 1]) <= max_width);
        lemma_cols_single(c);
        let (ls, cur, w) = hard_state(q, max_width);
        assert(cur.push(c).drop_last() =~= cur);
    }
}

/// A word cut into pieces: every piece fits the line when every character does.
proof fn lemma_hard_wrap_fits(word: Seq<char>, max_width: nat)
    requires
        chars_fit(word, max_width),
    ensures
        forall|i: int|
            0 <= i < spec_hard_wrap(word, max_width).len() ==> cols(#[trigger] spec_hard_wrap(word, max_width)[i])
                <= max_width,
{
    lemma_hard_state_fits(word, max_width);
}

/// Filling lines loses no word: the lines, read without their white space, spell the words.
proof fn lemma_wrap_state_content(ws: Seq<Seq<char>>, max_width: nat)
    requires
        forall|i: int| 0 <= i < ws.len() ==> no_ws(#[trigger] ws[i]),
    ensures
        ({
            let (ls, cur, cw) = wrap_state(ws, max_width);
            non_ws(ls.flatten() + cur) == ws.flatten()
        }),
    decreases ws.len(),
{
    broadcast use Seq::lemma_flatten_push;

    if ws.len() == 0 {
        assert(Seq::<Seq<char>>::empty().flatten() + Seq::<char>::empty() =~= Seq::<char>::empty());
    } else {
        let prev = ws.drop_last();
        assert forall|i: int| 0 <= i < prev.len() implies no_ws(#[trigger] prev[i]) by {
            assert(prev[i] == ws[i]);
        }
        lemma_wrap_state_content(prev, max_width);
        let (ls, cur, cw) = wrap_state(prev, max_width);
        let word = ws.last();
        assert(no_ws(ws[ws.len() - 1]));
        lemma_non_ws_of_no_ws(word);
        assert(prev.push(word) =~= ws);
        let ww = unicode_str_width(word) as nat;
        let hard = spec_hard_wrap(word, max_width);
        if ww > max_width {
            law_hard_wrap_pieces_fit(word, max_width);
            if cur.len() > 0 {
                vstd::seq_lib::lemma_flatten_concat(ls.push(cur), hard);
                assert((ls.push(cur) + hard).flatten() + Seq::<char>::empty() =~= (ls.flatten() + cur) + word);
            } else {
                vstd::seq_lib::lemma_flatten_concat(ls, hard);
                assert((ls + hard).flatten() + Seq::<char>::empty() =~= (ls.flatten() + cur) + word);
            }
            lemma_non_ws_concat(ls.flatten() + cur, word);
        } else {
            let needed = if cur.len() == 0 {
                ww
            } else {
                cw + 1 + ww
            };
            if needed > max_width {
                assert(ls.push(cur).flatten() + word =~= (ls.flatten() + cur) + word);
                lemma_non_ws_concat(ls.flatten() + cur, word);
            } else if cur.len() == 0 {
                assert(ls.flatten() + word =~= (ls.flatten() + cur) + word);
                lemma_non_ws_concat(ls.flatten() + cur, word);
            } else {
                let sp = seq![' '];
                assert(ls.flatten() + (cur + sp + word) =~= ((ls.flatten() + cur) + sp) + word);
                lemma_non_ws_concat((ls.flatten() + cur) + sp, word);
                lemma_non_ws_concat(ls.flatten() + cur, sp);
                assert(sp.drop_last() =~= Seq::<char>::empty());
                assert(sp.last() == ' ');
                assert((' ' as u32) == 0x20);
                assert(is_ws(' '));
                assert(non_ws(Seq::<char>::empty()) =~= Seq::<char>::empty());
                assert(non_ws(sp) =~= Seq::<char>::empty());
                assert(non_ws(ls.flatten() + cur) + non_ws(sp) =~= non_ws(ls.flatten() + cur));
            }
        }
    }
}

/// A word fit for filling: not empty, measured by `unicode-width` as its characters' columns,
/// and made of characters that each fit the line.
pub open spec fn fillable_word(w: Seq<char>, max_width: nat) -> bool {
    w.len() > 0 && widths_agree(w) && chars_fit(w, max_width)
}

/// Filling lines keeps every line within `max_width` columns.
proof fn lemma_wrap_state_fits(ws: Seq<Seq<char>>, max_width: nat)
    requires
        char_cols(' ') == 1,
        forall|i: int| 0 <= i < ws.len() ==> fillable_word(#[trigger] ws[i], max_width),
    ensures
        ({
            let (ls, cur, cw) = wrap_state(ws, max_width);
            &&& cw == cols(cur)
            &&& cols(cur) <= max_width
            &&& forall|i: int| 0 <= i < ls.len() ==> cols(#[trigger] ls[i]) <= max_width
        }),
    decreases ws.len(),
{
    if ws.len() == 0 {
        assert(cols(Seq::<char>::empty()) == 0);
    } else {
        let prev = ws.drop_last();
        assert forall|i: int| 0 <= i < prev.len() implies fillable_word(#[trigger] prev[i], max_width) by {
            assert(prev[i] == ws[i]);
        }
        lemma_wrap_state_fits(prev, max_width);
        let (ls, cur, cw) = wrap_state(prev, max_width);
        let word = ws.last();
        assert(fillable_word(ws[ws.len() - 1], max_width));
        let ww = unicode_str_width(word) as nat;
        let hard = spec_hard_wrap(word, max_width);
        assert(cols(Seq::<char>::empty()) == 0);
        if ww > max_width {
            lemma_hard_wrap_fits(word, max_width);
            if cur.len() > 0 {
                let nl = ls.push(cur) + hard;
                assert forall|i: int| 0 <= i < nl.len() implies cols(#[trigger] nl[i]) <= max_width by {
                    if i < ls.len() {
                        assert(nl[i] == ls[i]);
                    } else if i == ls.len() {
                        assert(nl[i] == cur);
                    } else {
                        assert(nl[i] == hard[i - ls.len() - 1]);
                    }
                }
            } else {
                let nl = ls + hard;
                assert forall|i: int| 0 <= i < nl.len() implies cols(#[trigger] nl[i]) <= max_width by {
                    if i < ls.len() {
                        assert(nl[i] == ls[i]);
                    } else {
                        assert(nl[i] == hard[i - ls.len()]);
                    }
                }
            }
        } else {
            let needed = if cur.len() == 0 {
                ww
            } else {
                cw + 1 + ww
            };
            if needed > max_width {
                let nl = ls.push(cur);
                assert forall|i: int| 0 <= i < nl.len() implies cols(#[trigger] nl[i]) <= max_width by {
                    if i < ls.len() {
                        assert(nl[i] == ls[i]);
                    }
                }
            } else if cur.len() > 0 {
                let sp = seq![' '];
                lemma_cols_single(' ');
                lemma_cols_concat(cur, sp);
                lemma_cols_concat(cur + sp, word);
            }
        }
    }
}

/// Wrapping keeps its promises for every text, on a line of at least one column: there is
/// always a line; read without white space the lines spell the text without white space, and
/// a text without white space is cut into lines that spell it exactly. Where the space is one
/// column wide, every character of the text fits the line, and the text and each of its words
/// take the columns of their characters (`widths_agree`), every line fits `max_width` columns.
pub proof fn law_wrap_line(text: Seq<char>, max_width: usize)
    requires
        max_width > 0,
    ensures
        spec_wrap_line(text, max_width).len() >= 1,
        non_ws(spec_wrap_line(text, max_width).flatten()) == non_ws(text),
        no_ws(text) ==> spec_wrap_line(text, max_width).flatten() == text,
        char_cols(' ') == 1 && chars_fit(text, max_width as nat) && widths_agree(text) && (forall|i: int|
            0 <= i < spec_words(text).len() ==> widths_agree(#[trigger] spec_words(text)[i])) ==> forall|i: int|
            0 <= i < spec_wrap_line(text, max_width).len() ==> cols(#[trigger] spec_wrap_line(text, max_width)[i])
                <= max_width,
{
    broadcast use Seq::lemma_flatten_push;

    let r = spec_wrap_line(text, max_width);
    let mw = max_width as nat;
    assert(Seq::<Seq<char>>::empty().flatten() =~= Seq::<char>::empty());
    assert(cols(Seq::<char>::empty()) == 0);
    if text.len() == 0 {
        assert(r == seq![Seq::<char>::empty()]);
        assert(r.flatten() =~= Seq::<Seq<char>>::empty().flatten() + Seq::<char>::empty());
        assert(r.flatten() =~= text);
    } else if unicode_str_width(text) <= max_width {
        assert(r == seq![text]);
        assert(r =~= Seq::<Seq<char>>::empty().push(text));
        assert(r.flatten() =~= text);
    } else {
        let words = spec_words(text);
        lemma_words_state(text, mw);
        let (ws0, cur0) = words_state(text);
        assert(words.flatten() == non_ws(text)) by {
            if cur0.len() > 0 {
                assert(words == ws0.push(cur0));
            } else {
                assert(ws0.flatten() + cur0 =~= ws0.flatten());
            }
        }
        assert forall|i: int| 0 <= i < words.len() implies no_ws(#[trigger] words[i]) && words[i].len() > 0 by {
            if cur0.len() > 0 && i == ws0.len() {
                assert(words[i] == cur0);
            } else {
                assert(words[i] == ws0[i]);
            }
        }
        lemma_wrap_state_content(words, mw);
        let (ls, cur, cw) = wrap_state(words, mw);
        let all = if cur.len() > 0 {
            ls.push(cur)
        } else {
            ls
        };
        assert(all.flatten() == ls.flatten() + cur) by {
            if cur.len() == 0 {
                assert(ls.flatten() + cur =~= ls.flatten());
            }
        }
        if all.len() == 0 {
            assert(r == seq![Seq::<char>::empty()]);
            assert(r.flatten() =~= Seq::<Seq<char>>::empty().flatten() + Seq::<char>::empty());
            assert(non_ws(Seq::<char>::empty()) =~= Seq::<char>::empty());
        } else {
            assert(r == all);
        }
        if no_ws(text) {
            lemma_words_of_no_ws(text);
            assert(words == seq![text]);
            assert(words.drop_last() =~= Seq::<Seq<char>>::empty());
            assert(words.last() == text);
            law_hard_wrap_pieces_fit(text, mw);
            assert(wrap_state(words.drop_last(), mw) == (Seq::<Seq<char>>::empty(), Seq::<char>::empty(), 0nat));
            assert(Seq::<Seq<char>>::empty() + spec_hard_wrap(text, mw) =~= spec_hard_wrap(text, mw));
            assert(all == spec_hard_wrap(text, mw));
        }
        if char_cols(' ') == 1 && chars_fit(text, mw) && widths_agree(text) && (forall|i: int|
            0 <= i < spec_words(text).len() ==> widths_agree(#[trigger] spec_words(text)[i])) {
            assert forall|i: int| 0 <= i < words.len() implies fillable_word(#[trigger] words[i], mw) by {
                assert(widths_agree(words[i]));
                if cur0.len() > 0 && i == ws0.len() {
                    assert(words[i] == cur0);
                } else {
                    assert(words[i] == ws0[i]);
                }
            }
            lemma_wrap_state_fits(words, mw);
            assert forall|i: int| 0 <= i < r.len() implies cols(#[trigger] r[i]) <= max_width by {
                if all.len() > 0 && cur.len() > 0 && i == ls.len() {
                    assert(r[i] == cur);
                } else if all.len() > 0 {
                    assert(r[i] == ls[i]);
                }
            }
        }
    }
}

/// The words of `text` (see `spec_words`).
pub fn split_whitespace_words(text: &str) -> (r: Vec<String>)
    ensures
        string_views(r@) == spec_words(text@),
{
    let v = chars_of(text);
    let mut words: Vec<String> = Vec::new();
    let mut current = String::new();
    let mut i: usize = 0;
    while i < v.len()
        invariant
            i <= v@.len(),
            v@ == text@,
            words_state(v@.take(i as int)) == (string_views(words@), current@),
        decreases v.len() - i,
    {
        assert(v@.take(i + 1).drop_last() =~= v@.take(i as int));
        let c = v[i];
        if char_is_ws(c) {
            if current.as_str().unicode_len() > 0 {
                let ghost before = words@;
                let done = current;
                words.push(done);
                proof {
                    crate::command::lemma_string_views_push(before, done);
                }
                current = String::new();
            }
            assert(current@ =~= Seq::<char>::empty());
        } else {
            push_char(&mut current, c);
        }
        i += 1;
    }
    assert(v@.take(v@.len() as int) =~= v@);
    if current.as_str().unicode_len() > 0 {
        let ghost before = words@;
        let last = current;
        words.push(last);
        proof {
            crate::command::lemma_string_views_push(before, last);
        }
    }
    words
}

/// Cuts a word into pieces of at most `max_width` columns (see `spec_hard_wrap`).
pub fn hard_wrap(text: &str, max_width: usize) -> (r: Vec<String>)
    ensures
        string_views(r@) == spec_hard_wrap(text@, max_width as nat),
{
    let v = chars_of(text);
    let mut lines: Vec<String> = Vec::new();
    let mut current = String::new();
    let mut width: usize = 0;
    let mut i: usize = 0;
    while i < v.len()
        invariant
            i <= v@.len(),
            v@ == text@,
            hard_state(v@.take(i as int), max_width as nat) == (string_views(lines@), current@, width as nat),
            current@.len() == 0 ==> width == 0,
            width <= max_width || current@.len() == 1,
        decreases v.len() - i,
    {
        assert(v@.take(i + 1).drop_last() =~= v@.take(i as int));
        let c = v[i];
        let w = char_cols_exec(c);
        let too_wide = width > max_width || w > max_width - width;
        if too_wide && current.as_str().unicode_len() > 0 {
            let ghost before = lines@;
            let done = current;
            lines.push(done);
            proof {
                crate::command::lemma_string_views_push(before, done);
            }
            current = String::new();
            push_char(&mut current, c);
            assert(current@ =~= seq![c]);
            width = w;
        } else {
            push_char(&mut current, c);
            width = width + w;
        }
        i += 1;
    }
    assert(v@.take(v@.len() as int) =~= v@);
    if current.as_str().unicode_len() > 0 {
        let ghost before = lines@;
        let last = current;
        lines.push(last);
        proof {
            crate::command::lemma_string_views_push(before, last);
        }
    }
    lines
}

/// Appends copies of `more` to `lines`.
fn extend_lines(lines: &mut Vec<String>, more: Vec<String>)
    ensures
        string_views(final(lines)@) == string_views(old(lines)@) + string_views(more@),
{
    let ghost start = string_views(lines@);
    let mut k: usize = 0;
    while k < more.len()
        invariant
            k <= more@.len(),
            string_views(lines@) == start + string_views(more@).take(k as int),
        decreases more.len() - k,
    {
        let ghost before = lines@;
        let piece = more[k].clone();
        lines.push(piece);
        proof {
            crate::command::lemma_string_views_push(before, piece);
            assert(string_views(more@).take(k + 1) =~= string_views(more@).take(k as int).push(more@[k as int]@));
            assert(start + string_views(more@).take(k + 1) =~= (start + string_views(more@).take(k as int)).push(piece@));
        }
        k += 1;
    }
    assert(string_views(more@).take(more@.len() as int) =~= string_views(more@));
}

/// Wrap `text` to `max_width` display columns (word-aware when possible; see
/// `spec_wrap_line`).
pub fn wrap_line(text: &str, max_width: usize) -> (r: Vec<String>)
    ensures
        string_views(r@) == spec_wrap_line(text@, max_width),
{
    if max_width == 0 {
        let r: Vec<String> = Vec::new();
        assert(string_views(r@) =~= Seq::<Seq<char>>::empty());
        return r;
    }
    if text.unicode_len() == 0 {
        let r = vec![String::new()];
        assert(string_views(r@) =~= seq![Seq::<char>::empty()]);
        return r;
    }
    if str_width(text) <= max_width {
        let r = vec![text.to_owned()];
        assert(string_views(r@) =~= seq![text@]);
        return r;
    }
    let words = split_whitespace_words(text);
    let ghost ws = string_views(words@);
    let mut lines: Vec<String> = Vec::new();
    let mut current = String::new();
    let mut current_width: usize = 0;
    let mut i: usize = 0;
    assert(ws.take(0) =~= Seq::<Seq<char>>::empty());
    while i < words.len()
        invariant
            i <= words@.len(),
            ws == string_views(words@),
            max_width > 0,
            wrap_state(ws.take(i as int), max_width as nat) == (string_views(lines@), current@, current_width as nat),
            current_width <= max_width,
        decreases words.len() - i,
    {
        assert(ws.take(i + 1).drop_last() =~= ws.take(i as int));
        assert(ws[i as int] == words@[i as int]@);
        let word = words[i].as_str();
        let word_width = str_width(word);
        if word_width > max_width {
            if current.as_str().unicode_len() > 0 {
                let ghost before = lines@;
                let done = current;
                lines.push(done);
                proof {
                    crate::command::lemma_string_views_push(before, done);
                }
                current = String::new();
                current_width = 0;
            }
            let pieces = hard_wrap(word, max_width);
            extend_lines(&mut lines, pieces);
            assert(current@ =~= Seq::<char>::empty());
            i += 1;
            continue;
        }
        let empty = current.as_str().unicode_len() == 0;
        let exceeds = if empty {
            false
        } else {
            current_width >= max_width || word_width > max_width - current_width - 1
        };
        if exceeds {
            let ghost before = lines@;
            let done = current;
            lines.push(done);
            proof {
                crate::command::lemma_string_views_push(before, done);
            }
            current = word.to_owned();
            current_width = word_width;
        } else if empty {
            current = word.to_owned();
            current_width = word_width;
        } else {
            push_char(&mut current, ' ');
            current.append(word);
            current_width = current_width + 1 + word_width;
        }
        i += 1;
    }
    assert(ws.take(words@.len() as int) =~= ws);
    if current.as_str().unicode_len() > 0 {
        let ghost before = lines@;
        let last = current;
        lines.push(last);
        proof {
            crate::command::lemma_string_views_push(before, last);
        }
    }
    if lines.len() == 0 {
        lines.push(String::new());
        assert(string_views(lines@) =~= seq![Seq::<char>::empty()]);
    }
    lines
}

/// The pieces of `s` between non-overlapping occurrences of `p`, from the left (`str::split`
/// with a non-empty string pattern).
pub open spec fn split_pattern(s: Seq<char>, p: Seq<char>) -> Seq<Seq<char>>
    decreases s.len(),
{
    if p.len() == 0 {
        seq![s]
    } else {
        match find_from(s, p, 0) {
            None => seq![s],
            Some(i) => if 0 <= i && i + p.len() <= s.len() {
                seq![s.take(i)] + split_pattern(s.skip(i + p.len()), p)
            } else {
                seq![s]
            },
        }
    }
}

/// `l` without one trailing `\r`.
pub open spec fn strip_cr(l: Seq<char>) -> Seq<char> {
    if l.len() > 0 && l.last() == '\r' {
        l.drop_last()
    } else {
        l
    }
}

/// The lines of `s` (`str::lines`): pieces between line feeds, each without the `\r` of a
/// `\r\n` ending; a final line feed ends the last line rather than starting an empty one.
pub open spec fn spec_lines(s: Seq<char>) -> Seq<Seq<char>> {
    if s.len() == 0 {
        Seq::empty()
    } else {
        let pieces = split_pattern(s, seq!['\n']);
        let ended = pieces.drop_last().map_values(|l: Seq<char>| strip_cr(l));
        if s.last() == '\n' {
            ended
        } else {
            ended.push(pieces.last())
        }
    }
}

/// The lines of one paragraph wrapped: an empty line stays one empty line.
pub open spec fn wrap_paragraph_lines(lines: Seq<Seq<char>>, max_width: usize) -> Seq<Seq<char>>
    decreases lines.len(),
{
    if lines.len() == 0 {
        Seq::empty()
    } else {
        wrap_paragraph_lines(lines.drop_last(), max_width) + if lines.last().len() == 0 {
            seq![Seq::empty()]
        } else {
            spec_wrap_line(lines.last(), max_width)
        }
    }
}

/// Paragraphs (separated by a blank line) wrapped one after the other, an empty line between
/// neighbours.
pub open spec fn wrap_paragraph_list(paras: Seq<Seq<char>>, max_width: usize) -> Seq<Seq<char>>
    decreases paras.len(),
{
    if paras.len() == 0 {
        Seq::empty()
    } else {
        wrap_paragraph_list(paras.drop_last(), max_width) + (if paras.len() > 1 {
            seq![Seq::empty()]
        } else {
            Seq::empty()
        }) + wrap_paragraph_lines(spec_lines(paras.last()), max_width)
    }
}

/// A text wrapped paragraph by paragraph (see `wrap_paragraph_list`).
pub open spec fn spec_wrap_paragraphs(text: Seq<char>, max_width: usize) -> Seq<Seq<char>> {
    wrap_paragraph_list(split_pattern(text, seq!['\n', '\n']), max_width)
}

/// The pieces of `s` between occurrences of `p` (see `split_pattern`).
pub fn split_on(s: &str, p: &Vec<char>) -> (r: Vec<String>)
    requires
        p@.len() > 0,
    ensures
        string_views(r@) == split_pattern(s@, p@),
{
    let v = chars_of(s);
    let mut out: Vec<String> = Vec::new();
    let mut start: usize = 0;
    assert(v@.skip(0) =~= v@);
    loop
        invariant
            start <= v@.len(),
            v@ == s@,
            p@.len() > 0,
            split_pattern(s@, p@) == string_views(out@) + split_pattern(v@.skip(start as int), p@),
        decreases v@.len() - start,
    {
        let ghost rest = v@.skip(start as int);
        let ghost before = out@;
        match find_in(&v, p, start) {
            None => {
                proof {
                    crate::text::lemma_find_from_shift(v@, p@, start as int);
                }
                let last = string_from_range(&v, start, v.len());
                out.push(last);
                proof {
                    crate::command::lemma_string_views_push(before, last);
                    assert(v@.subrange(start as int, v@.len() as int) =~= rest);
                    assert(string_views(before) + seq![rest] =~= string_views(before).push(rest));
                }
                return out;
            },
            Some(i) => {
                proof {
                    crate::text::lemma_find_from_shift(v@, p@, start as int);
                    lemma_find_from_facts(v@, p@, start as int);
                    assert(rest.take(i - start) =~= v@.subrange(start as int, i as int));
                    assert(rest.skip(i - start + p@.len()) =~= v@.skip(i + p@.len()));
                }
                let piece = string_from_range(&v, start, i);
                out.push(piece);
                proof {
                    crate::command::lemma_string_views_push(before, piece);
                    assert(string_views(before) + (seq![piece@] + split_pattern(v@.skip(i + p@.len()), p@))
                        =~= string_views(before).push(piece@) + split_pattern(v@.skip(i + p@.len()), p@));
                }
                start = i + p.len();
            },
        }
    }
}

/// `l` without one trailing `\r`.
fn strip_cr_exec(l: &str) -> (r: String)
    ensures
        r@ == strip_cr(l@),
{
    let v = chars_of(l);
    if v.len() > 0 && v[v.len() - 1] == '\r' {
        assert(v@.subrange(0, v@.len() - 1) =~= v@.drop_last());
        string_from_range(&v, 0, v.len() - 1)
    } else {
        l.to_owned()
    }
}

/// The lines of `s` (see `spec_lines`).
pub fn lines_of(s: &str) -> (r: Vec<String>)
    ensures
        string_views(r@) == spec_lines(s@),
{
    let v = chars_of(s);
    if v.len() == 0 {
        let r: Vec<String> = Vec::new();
        assert(string_views(r@) =~= Seq::<Seq<char>>::empty());
        return r;
    }
    let lf: Vec<char> = vec!['\n'];
    let pieces = split_on(s, &lf);
    let ghost ps = string_views(pieces@);
    assert(lf@ =~= seq!['\n']);
    proof {
        lemma_split_pattern_nonempty(s@, seq!['\n']);
    }
    let mut out: Vec<String> = Vec::new();
    let mut i: usize = 0;
    let count = pieces.len();
    while i < count - 1
        invariant
            count == pieces@.len(),
            count >= 1,
            i + 1 <= pieces@.len(),
            ps == string_views(pieces@),
            string_views(out@) == ps.drop_last().take(i as int).map_values(|l: Seq<char>| strip_cr(l)),
        decreases pieces.len() - i,
    {
        let ghost before = out@;
        let line = strip_cr_exec(pieces[i].as_str());
        out.push(line);
        proof {
            crate::command::lemma_string_views_push(before, line);
            assert(ps.drop_last()[i as int] == pieces@[i as int]@);
            assert(ps.drop_last().take(i + 1).map_values(|l: Seq<char>| strip_cr(l)) =~= ps.drop_last().take(
                i as int,
            ).map_values(|l: Seq<char>| strip_cr(l)).push(strip_cr(ps.drop_last()[i as int])));
        }
        i += 1;
    }
    assert(ps.drop_last().take(i as int) =~= ps.drop_last());
    if v[v.len() - 1] != '\n' {
        let ghost before = out@;
        let last = pieces[pieces.len() - 1].clone();
        out.push(last);
        proof {
            crate::command::lemma_string_views_push(before, last);
        }
    }
    out
}

/// Splitting gives at least one piece.
proof fn lemma_split_pattern_nonempty(s: Seq<char>, p: Seq<char>)
    ensures
        split_pattern(s, p).len() >= 1,
    decreases s.len(),
{
    if p.len() > 0 {
        match find_from(s, p, 0) {
            None => {},
            Some(i) => if 0 <= i && i + p.len() <= s.len() {
                lemma_split_pattern_nonempty(s.skip(i + p.len()), p);
            },
        }
    }
}

/// Wrap a paragraph that may contain explicit newlines; blank lines are preserved (see
/// `spec_wrap_paragraphs`).
pub fn wrap_paragraphs(text: &str, max_width: usize) -> (r: Vec<String>)
    ensures
        string_views(r@) == spec_wrap_paragraphs(text@, max_width),
{
    let sep: Vec<char> = vec!['\n', '\n'];
    assert(sep@ =~= seq!['\n', '\n']);
    let paras = split_on(text, &sep);
    let ghost ps = string_views(paras@);
    let mut out: Vec<String> = Vec::new();
    let mut idx: usize = 0;
    assert(ps.take(0) =~= Seq::<Seq<char>>::empty());
    assert(string_views(out@) =~= Seq::<Seq<char>>::empty());
    while idx < paras.len()
        invariant
            idx <= paras@.len(),
            ps == string_views(paras@),
            ps == split_pattern(text@, seq!['\n', '\n']),
            string_views(out@) == wrap_paragraph_list(ps.take(idx as int), max_width),
        decreases paras.len() - idx,
    {
        assert(ps.take(idx + 1).drop_last() =~= ps.take(idx as int));
        assert(ps[idx as int] == paras@[idx as int]@);
        let ghost before = string_views(out@);
        if idx > 0 {
            let ghost b = out@;
            let e = String::new();
            out.push(e);
            proof {
                crate::command::lemma_string_views_push(b, e);
            }
        }
        let ghost mid = string_views(out@);
        assert(mid == before + (if idx + 1 > 1 {
            seq![Seq::<char>::empty()]
        } else {
            Seq::<Seq<char>>::empty()
        }));
        let lines = lines_of(paras[idx].as_str());
        let ghost ls = string_views(lines@);
        let mut j: usize = 0;
        assert(ls.take(0) =~= Seq::<Seq<char>>::empty());
        assert(mid + wrap_paragraph_lines(Seq::empty(), max_width) =~= mid);
        while j < lines.len()
            invariant
                j <= lines@.len(),
                ls == string_views(lines@),
                string_views(out@) == mid + wrap_paragraph_lines(ls.take(j as int), max_width),
            decreases lines.len() - j,
        {
            assert(ls.take(j + 1).drop_last() =~= ls.take(j as int));
            assert(ls[j as int] == lines@[j as int]@);
            let ghost b = out@;
            if lines[j].as_str().unicode_len() == 0 {
                let e = String::new();
                out.push(e);
                proof {
                    crate::command::lemma_string_views_push(b, e);
                    assert(string_views(out@) =~= mid + wrap_paragraph_lines(ls.take(j + 1), max_width));
                }
            } else {
                let wrapped = wrap_line(lines[j].as_str(), max_width);
                extend_lines(&mut out, wrapped);
                assert(string_views(out@) =~= mid + wrap_paragraph_lines(ls.take(j + 1), max_width));
            }
            j += 1;
        }
        assert(ls.take(lines@.len() as int) =~= ls);
        assert(string_views(out@) =~= wrap_paragraph_list(ps.take(idx + 1), max_width));
        idx += 1;
    }
    assert(ps.take(paras@.len() as int) =~= ps);
    out
}

} // verus!
