//! Fitting a label into a slot: ping-pong scrolling of overflowing labels, clipping on the
//! right or to a window, and centring. Times are milliseconds on the host's monotonic clock.
use vstd::prelude::*;

use crate::text::{chars_of, push_char, str_eq};
use crate::tui::width::{
    char_cols, char_cols_exec, char_width, cols, lemma_cols_single, str_width, unicode_char_width, unicode_str_width,
    widths_agree,
};

verus! {

/// Delay between marquee column steps, in milliseconds.
pub const MARQUEE_STEP_MS: u64 = 120;
/// Hold at each end before reversing direction, in milliseconds.
pub const MARQUEE_PAUSE_MS: u64 = 800;

/// Ping-pong horizontal scroll for overflowing single-line labels.
#[derive(Debug, Clone)]
pub struct LabelMarquee {
    path_key: String,
    offset: usize,
    forward: bool,
    next_step: u64,
    pause_until: u64,
}

/// The scroll state: which label it follows, the column offset, the direction, and the times
/// of the next step and of the end of the current pause.
pub struct MarqueeModel {
    pub path_key: Seq<char>,
    pub offset: usize,
    pub forward: bool,
    pub next_step: u64,
    pub pause_until: u64,
}

impl View for LabelMarquee {
    type V = MarqueeModel;

    closed spec fn view(&self) -> MarqueeModel {
        MarqueeModel {
            path_key: self.path_key@,
            offset: self.offset,
            forward: self.forward,
            next_step: self.next_step,
            pause_until: self.pause_until,
        }
    }
}

/// The state right after following the label `key` at time `now`: at the start, moving
/// forward, pausing first.
pub open spec fn fresh(key: Seq<char>, now: u64) -> MarqueeModel {
    MarqueeModel { path_key: key, offset: 0, forward: true, next_step: now, pause_until: (now + MARQUEE_PAUSE_MS) as u64 }
}

/// One step of the scroll for a label that overflows its slot by `overflow` columns at time
/// `now`: the new state and the offset to paint. A label that fits, or a new label, starts
/// over; while paused or before the next step the offset stays; otherwise it moves one column
/// and turns around, pausing, at either end.
pub open spec fn spec_advance(m: MarqueeModel, key: Seq<char>, overflow: usize, now: u64) -> (MarqueeModel, usize) {
    if overflow == 0 || m.path_key != key {
        (fresh(key, now), 0)
    } else {
        let offset = if m.offset < overflow {
            m.offset
        } else {
            overflow
        };
        let m1 = MarqueeModel { offset, ..m };
        if now < m1.pause_until || now < m1.next_step {
            (m1, offset)
        } else {
            let m2 = MarqueeModel { next_step: (now + MARQUEE_STEP_MS) as u64, ..m1 };
            let pause = (now + MARQUEE_PAUSE_MS) as u64;
            if m2.forward {
                if offset >= overflow {
                    (MarqueeModel { forward: false, pause_until: pause, ..m2 }, offset)
                } else if offset + 1 >= overflow {
                    (MarqueeModel { offset: (offset + 1) as usize, forward: false, pause_until: pause, ..m2 }, (offset + 1) as usize)
                } else {
                    (MarqueeModel { offset: (offset + 1) as usize, ..m2 }, (offset + 1) as usize)
                }
            } else if offset == 0 {
                (MarqueeModel { forward: true, pause_until: pause, ..m2 }, 0)
            } else if offset - 1 == 0 {
                (MarqueeModel { offset: 0, forward: true, pause_until: pause, ..m2 }, 0)
            } else {
                (MarqueeModel { offset: (offset - 1) as usize, ..m2 }, (offset - 1) as usize)
            }
        }
    }
}

/// How far `label` overflows `max_width` columns.
pub open spec fn overflow_of(label: Seq<char>, max_width: usize) -> usize {
    if unicode_str_width(label) > max_width {
        (unicode_str_width(label) - max_width) as usize
    } else {
        0
    }
}

impl LabelMarquee {
    /// A marquee created at time `now`, following no label yet.
    pub fn new(now: u64) -> (r: Self)
        requires
            now + MARQUEE_PAUSE_MS <= u64::MAX,
        ensures
            r@ == fresh(Seq::empty(), now),
    {
        let r = LabelMarquee { path_key: String::new(), offset: 0, forward: true, next_step: now, pause_until: now + MARQUEE_PAUSE_MS };
        assert(r@.path_key =~= Seq::<char>::empty());
        r
    }

    fn reset(&mut self, path_key: &str, now: u64)
        requires
            now + MARQUEE_PAUSE_MS <= u64::MAX,
        ensures
            final(self)@ == fresh(path_key@, now),
    {
        self.path_key = path_key.to_owned();
        self.offset = 0;
        self.forward = true;
        self.next_step = now;
        self.pause_until = now + MARQUEE_PAUSE_MS;
    }

    /// Advance ping-pong state for `label` shown in `max_width` columns at time `now`; returns
    /// the column offset to paint (see `spec_advance`).
    pub fn advance(&mut self, path_key: &str, label: &str, max_width: usize, now: u64) -> (r: usize)
        requires
            now + MARQUEE_PAUSE_MS <= u64::MAX,
        ensures
            (final(self)@, r) == spec_advance(old(self)@, path_key@, overflow_of(label@, max_width), now),
    {
        let width = str_width(label);
        let overflow = if width > max_width {
            width - max_width
        } else {
            0
        };
        if overflow == 0 {
            self.reset(path_key, now);
            return 0;
        }
        if !str_eq(self.path_key.as_str(), path_key) {
            self.reset(path_key, now);
            return 0;
        }
        if self.offset > overflow {
            self.offset = overflow;
        }
        if now < self.pause_until {
            return self.offset;
        }
        if now < self.next_step {
            return self.offset;
        }
        self.next_step = now + MARQUEE_STEP_MS;
        if self.forward {
            if self.offset >= overflow {
                self.forward = false;
                self.pause_until = now + MARQUEE_PAUSE_MS;
            } else {
                self.offset = self.offset + 1;
                if self.offset >= overflow {
                    self.forward = false;
                    self.pause_until = now + MARQUEE_PAUSE_MS;
                }
            }
        } else if self.offset == 0 {
            self.forward = true;
            self.pause_until = now + MARQUEE_PAUSE_MS;
        } else {
            self.offset = self.offset - 1;
            if self.offset == 0 {
                self.forward = true;
                self.pause_until = now + MARQUEE_PAUSE_MS;
            }
        }
        self.offset
    }
}

/// The scroll offset never passes the overflow: what `advance` paints, and the offset it
/// keeps, stay within the columns the label overflows by.
pub proof fn law_marquee_offset_bounded(m: MarqueeModel, key: Seq<char>, overflow: usize, now: u64)
    ensures
        spec_advance(m, key, overflow, now).1 <= overflow,
        spec_advance(m, key, overflow, now).0.offset <= overflow,
{
}

/// How many leading characters of `s` fit in `budget` columns, reading from index `i` with
/// `used` columns already taken: reading stops at the first character that does not fit.
pub open spec fn fit_len(s: Seq<char>, budget: nat, i: int, used: nat) -> int
    decreases s.len() - i,
{
    if i < 0 || i >= s.len() || used + char_cols(s[i]) > budget {
        i
    } else {
        fit_len(s, budget, i + 1, used + char_cols(s[i]))
    }
}

/// The columns of the ellipsis `…`.
pub open spec fn ellipsis_cols() -> nat {
    match unicode_char_width('…') {
        Some(w) => w as nat,
        None => 1,
    }
}

/// `text` cut on the right to `max_width` columns with `…` appended when it is cut: empty for
/// no columns, the whole text when it fits, a lone `…` when only the ellipsis fits.
pub open spec fn spec_clip_right(text: Seq<char>, max_width: usize) -> Seq<char> {
    if max_width == 0 {
        Seq::empty()
    } else if unicode_str_width(text) <= max_width {
        text
    } else if max_width <= ellipsis_cols() {
        seq!['…']
    } else {
        text.take(fit_len(text, (max_width - ellipsis_cols()) as nat, 0, 0)).push('…')
    }
}

/// Truncate on the right to `max_width` display columns, appending `…` when clipped.
pub fn clip_right(text: &str, max_width: usize) -> (r: String)
    ensures
        r@ == spec_clip_right(text@, max_width),
{
    if max_width == 0 {
        return String::new();
    }
    let full_width = str_width(text);
    if full_width <= max_width {
        return text.to_owned();
    }
    let ellipsis_width = match char_width('…') {
        Some(w) => w,
        None => 1,
    };
    if max_width <= ellipsis_width {
        let mut r = String::new();
        push_char(&mut r, '…');
        assert(r@ =~= seq!['…']);
        return r;
    }
    let budget = max_width - ellipsis_width;
    let v = chars_of(text);
    let mut out = String::new();
    let mut width: usize = 0;
    let mut i: usize = 0;
    let mut done = false;
    while i < v.len() && !done
        invariant
            i <= v@.len(),
            v@ == text@,
            width <= budget,
            width == cols(v@.take(i as int)),
            out@ == v@.take(i as int),
            fit_len(v@, budget as nat, 0, 0) == fit_len(v@, budget as nat, i as int, width as nat),
            done ==> i < v@.len() && width + char_cols(v@[i as int]) > budget,
        decreases v.len() - i + (if done { 0int } else { 1int }),
    {
        let w = char_cols_exec(v[i]);
        if w > budget - width {
            done = true;
        } else {
            assert(v@.take(i + 1).drop_last() =~= v@.take(i as int));
            push_char(&mut out, v[i]);
            assert(out@ =~= v@.take(i + 1));
            width = width + w;
            i += 1;
        }
    }
    push_char(&mut out, '…');
    out
}

/// What `fit_len` finds, read from index `i` with `used == cols(s.take(i))` columns taken: a
/// prefix that fits in `budget` columns, and the longest one, since the next character would
/// not fit.
proof fn lemma_fit_len(s: Seq<char>, budget: nat, i: int, used: nat)
    requires
        0 <= i <= s.len(),
        used == cols(s.take(i)),
        used <= budget,
    ensures
        i <= fit_len(s, budget, i, used) <= s.len(),
        cols(s.take(fit_len(s, budget, i, used))) <= budget,
        fit_len(s, budget, i, used) < s.len() ==> cols(s.take(fit_len(s, budget, i, used) + 1)) > budget,
    decreases s.len() - i,
{
    if i < s.len() {
        assert(s.take(i + 1).drop_last() =~= s.take(i));
        assert(s.take(i + 1).last() == s[i]);
        if used + char_cols(s[i]) <= budget {
            lemma_fit_len(s, budget, i + 1, used + char_cols(s[i]));
        }
    }
}

/// Clipping on the right fits the text in its columns: no columns give nothing, a text that
/// fits is kept, and a text that does not fit becomes the longest prefix that fits beside the
/// ellipsis, then `…`, taking at most `max_width` columns (when only the ellipsis fits, it is
/// returned alone). Where the text's width is the sum of its characters' widths, every result
/// takes at most `max_width` columns. Widths below the ellipsis's own width are left out:
/// there, too, the lone `…` is returned.
pub proof fn law_clip_right_fits(text: Seq<char>, max_width: usize)
    ensures
        max_width == 0 ==> spec_clip_right(text, max_width).len() == 0,
        0 < max_width && unicode_str_width(text) <= max_width ==> spec_clip_right(text, max_width) == text,
        0 < max_width && unicode_str_width(text) > max_width && ellipsis_cols() <= max_width ==> ({
            let r = spec_clip_right(text, max_width);
            let k = r.len() - 1;
            let budget = max_width - ellipsis_cols();
            &&& r.len() >= 1
            &&& r.last() == '…'
            &&& cols(r) <= max_width
            &&& 0 <= k <= text.len()
            &&& r.drop_last() == text.take(k)
            &&& cols(text.take(k)) <= budget
            &&& ellipsis_cols() < max_width && k < text.len() ==> cols(text.take(k + 1)) > budget
        }),
        widths_agree(text) && (max_width == 0 || ellipsis_cols() <= max_width) ==> cols(
            spec_clip_right(text, max_width),
        ) <= max_width,
{
    let r = spec_clip_right(text, max_width);
    assert(cols(Seq::<char>::empty()) == 0);
    lemma_cols_single('…');
    assert(char_cols('…') <= ellipsis_cols());
    if 0 < max_width && unicode_str_width(text) > max_width && ellipsis_cols() <= max_width {
        if max_width <= ellipsis_cols() {
            assert(r == seq!['…']);
            assert(r.drop_last() =~= Seq::<char>::empty());
            assert(text.take(0) =~= Seq::<char>::empty());
        } else {
            let budget = (max_width - ellipsis_cols()) as nat;
            assert(text.take(0) =~= Seq::<char>::empty());
            lemma_fit_len(text, budget, 0, 0);
            let k = fit_len(text, budget, 0, 0);
            assert(r == text.take(k).push('…'));
            assert(r.drop_last() =~= text.take(k));
            assert(cols(r) == cols(text.take(k)) + char_cols('…'));
        }
    }
}

/// The characters of `s` from index `i` that a window of `max_width` columns shows after
/// `offset` columns are skipped; `skipped` columns are behind, `started` says the window has
/// begun and `width` columns of it are used. A character straddling the start of the window is
/// skipped whole.
pub open spec fn window_from(
    s: Seq<char>,
    i: int,
    offset: nat,
    max_width: nat,
    skipped: nat,
    started: bool,
    width: nat,
) -> Seq<char>
    decreases s.len() - i,
{
    if i < 0 || i >= s.len() {
        Seq::empty()
    } else {
        let w = char_cols(s[i]);
        if !started {
            if skipped + w > offset {
                window_from(s, i + 1, offset, max_width, skipped + w, true, width)
            } else {
                window_from(s, i + 1, offset, max_width, skipped + w, skipped + w == offset, width)
            }
        } else if width + w > max_width {
            Seq::empty()
        } else {
            seq![s[i]] + window_from(s, i + 1, offset, max_width, skipped, true, width + w)
        }
    }
}

/// The text a window shows: nothing for no columns.
pub open spec fn spec_clip_window(text: Seq<char>, offset: usize, max_width: usize) -> Seq<char> {
    if max_width == 0 {
        Seq::empty()
    } else {
        window_from(text, 0, offset as nat, max_width as nat, 0, offset == 0, 0)
    }
}

/// Skip `offset` display columns, then take up to `max_width` (no ellipsis).
pub fn clip_window(text: &str, offset: usize, max_width: usize) -> (r: String)
    ensures
        r@ == spec_clip_window(text@, offset, max_width),
{
    if max_width == 0 {
        return String::new();
    }
    let v = chars_of(text);
    let mut skipped: usize = 0;
    let mut started = offset == 0;
    let mut out = String::new();
    let mut width: usize = 0;
    let mut i: usize = 0;
    let ghost target = spec_clip_window(text@, offset, max_width);
    let mut done = false;
    while i < v.len() && !done
        invariant
            i <= v@.len(),
            v@ == text@,
            max_width > 0,
            width <= max_width,
            !started ==> skipped < offset,
            target == out@ + window_from(v@, i as int, offset as nat, max_width as nat, skipped as nat, started, width as nat),
            done ==> started && i < v@.len() && width + char_cols(v@[i as int]) > max_width,
        decreases v.len() - i + (if done { 0int } else { 1int }),
    {
        let w = char_cols_exec(v[i]);
        if !started {
            if w > offset - skipped {
                proof {
                    lemma_window_skipped_irrelevant(
                        v@,
                        i + 1,
                        offset as nat,
                        max_width as nat,
                        (skipped + w) as nat,
                        offset as nat,
                        width as nat,
                    );
                }
                skipped = offset;
                started = true;
                i += 1;
            } else {
                skipped = skipped + w;
                if skipped == offset {
                    started = true;
                }
                i += 1;
            }
        } else if w > max_width - width {
            done = true;
        } else {
            let ghost before = out@;
            push_char(&mut out, v[i]);
            assert(before + window_from(v@, i as int, offset as nat, max_width as nat, skipped as nat, true, width as nat)
                =~= out@ + window_from(v@, i + 1, offset as nat, max_width as nat, skipped as nat, true, (width + w) as nat));
            width = width + w;
            i += 1;
        }
    }
    assert(out@ + Seq::<char>::empty() =~= out@);
    out
}

/// Once the window has started, how many columns were skipped no longer matters.
proof fn lemma_window_skipped_irrelevant(
    s: Seq<char>,
    i: int,
    offset: nat,
    max_width: nat,
    a: nat,
    b: nat,
    width: nat,
)
    ensures
        window_from(s, i, offset, max_width, a, true, width) == window_from(s, i, offset, max_width, b, true, width),
    decreases s.len() - i,
{
    if 0 <= i < s.len() {
        let w = char_cols(s[i]);
        if width + w <= max_width {
            lemma_window_skipped_irrelevant(s, i + 1, offset, max_width, a, b, width + w);
        }
    }
}

/// The characters a window shows fit in it.
pub proof fn law_window_fits(s: Seq<char>, i: int, offset: nat, max_width: nat, skipped: nat, started: bool, width: nat)
    requires
        width <= max_width,
    ensures
        width + cols(window_from(s, i, offset, max_width, skipped, started, width)) <= max_width,
    decreases s.len() - i,
{
    if 0 <= i < s.len() {
        let w = char_cols(s[i]);
        if !started {
            if skipped + w > offset {
                law_window_fits(s, i + 1, offset, max_width, skipped + w, true, width);
            } else {
                law_window_fits(s, i + 1, offset, max_width, skipped + w, skipped + w == offset, width);
            }
        } else if width + w <= max_width {
            let rest = window_from(s, i + 1, offset, max_width, skipped, true, width + w);
            law_window_fits(s, i + 1, offset, max_width, skipped, true, width + w);
            lemma_cols_prepend(s[i], rest);
        }
    }
}

/// The columns of a character followed by a text.
pub proof fn lemma_cols_prepend(c: char, rest: Seq<char>)
    ensures
        cols(seq![c] + rest) == char_cols(c) + cols(rest),
    decreases rest.len(),
{
    let x = seq![c] + rest;
    if rest.len() > 0 {
        lemma_cols_prepend(c, rest.drop_last());
        assert(x.drop_last() =~= seq![c] + rest.drop_last());
        assert(x.last() == rest.last());
        assert(cols(x) == cols(x.drop_last()) + char_cols(x.last()));
        assert(cols(rest) == cols(rest.drop_last()) + char_cols(rest.last()));
    } else {
        assert(x.drop_last() =~= Seq::<char>::empty());
        assert(x.last() == c);
        assert(cols(x) == cols(x.drop_last()) + char_cols(x.last()));
        assert(cols(Seq::<char>::empty()) == 0);
    }
}

/// The left padding that centres `text` in `slot_width` columns.
pub open spec fn spec_center_offset(text: Seq<char>, slot_width: usize) -> usize {
    if unicode_str_width(text) >= slot_width {
        0
    } else {
        ((slot_width - unicode_str_width(text)) / 2) as usize
    }
}

/// Left padding (display columns) to center `text` in a slot of `slot_width`.
pub fn center_offset(text: &str, slot_width: usize) -> (r: usize)
    ensures
        r == spec_center_offset(text@, slot_width),
{
    let w = str_width(text);
    if w >= slot_width {
        0
    } else {
        (slot_width - w) / 2
    }
}

} // verus!
