//! The BIOS-style combo row `label  【⮜ value ⮞】`: how wide its value slot is, where its
//! parts sit, and what text the slot shows.
use vstd::prelude::*;

use crate::command::{FieldKind, FieldSpec};
use crate::forms::{select_options, spec_preset_options, spec_select_options};
use crate::text::{chars_of, push_char, string_from_range};
use crate::tui::text_marquee::{
    LabelMarquee, MARQUEE_PAUSE_MS, center_offset, clip_right, clip_window, overflow_of, spec_advance, spec_center_offset,
    spec_clip_right, spec_clip_window,
};
use crate::tui::width::{str_width, unicode_str_width};

verus! {

/// Columns the combo takes besides its value slot: the brackets, the arrows and a pad on each
/// side of the value.
pub const CHROME_WIDTH: u16 = 6;

/// The clickable parts of a combo.
#[derive(Debug, Clone, Copy, PartialEq, Eq, Structural)]
pub enum ComboPart {
    Inner,
    Left,
    Right,
}

/// What a combo row shows: its field, the current value, whether the row is selected and
/// which part has embedded focus, with the marquee that scrolls an overflowing value (keyed
/// by `marquee_key`) and the time of the frame in milliseconds.
pub struct ComboRenderParams<'a> {
    pub field: &'a FieldSpec,
    pub value: &'a str,
    pub selected: bool,
    pub embedded: Option<ComboPart>,
    pub marquee: LabelMarquee,
    pub marquee_key: &'a str,
    pub now: u64,
}

/// The widest choice of a field, in display columns (0 for a field without choices).
pub open spec fn spec_max_option_width(kind: FieldKind) -> nat
    decreases 0nat,
{
    match spec_preset_options(kind) {
        Some(o) => max_width_of(o.map_values(|p: crate::command::PresetOption| p.label@), 0),
        None => max_width_of(spec_select_options(kind).map_values(|s: &'static str| s@), 0),
    }
}

/// The widest of `xs[i..]`.
pub open spec fn max_width_of(xs: Seq<Seq<char>>, i: int) -> nat
    decreases xs.len() - i,
{
    if i < 0 || i >= xs.len() {
        0
    } else {
        let w = unicode_str_width(xs[i]) as nat;
        let rest = max_width_of(xs, i + 1);
        if w > rest {
            w
        } else {
            rest
        }
    }
}

/// The widest choice of a field, in display columns.
pub fn max_combo_option_width(kind: &FieldKind) -> (r: usize)
    ensures
        r == spec_max_option_width(*kind),
{
    let ghost labels = match spec_preset_options(*kind) {
        Some(o) => o.map_values(|p: crate::command::PresetOption| p.label@),
        None => spec_select_options(*kind).map_values(|s: &'static str| s@),
    };
    let mut widths: Vec<usize> = Vec::new();
    match crate::forms::preset_options(kind) {
        Some(options) => {
            let mut i: usize = 0;
            while i < options.len()
                invariant
                    i <= options@.len(),
                    spec_preset_options(*kind) == Some(options@),
                    labels == options@.map_values(|p: crate::command::PresetOption| p.label@),
                    widths@.len() == i,
                    forall|j: int| 0 <= j < i ==> widths@[j] == unicode_str_width(#[trigger] labels[j]),
                decreases options.len() - i,
            {
                widths.push(str_width(options[i].label));
                i += 1;
            }
        },
        None => {
            let options = select_options(kind);
            let mut i: usize = 0;
            while i < options.len()
                invariant
                    i <= options@.len(),
                    options@ == spec_select_options(*kind),
                    labels == options@.map_values(|s: &'static str| s@),
                    widths@.len() == i,
                    forall|j: int| 0 <= j < i ==> widths@[j] == unicode_str_width(#[trigger] labels[j]),
                decreases options.len() - i,
            {
                widths.push(str_width(options[i]));
                i += 1;
            }
        },
    }
    let mut best: usize = 0;
    let mut k: usize = widths.len();
    while k > 0
        invariant
            k <= widths@.len(),
            widths@.len() == labels.len(),
            forall|j: int| 0 <= j < widths@.len() ==> widths@[j] == unicode_str_width(#[trigger] labels[j]),
            best == max_width_of(labels, k as int),
        decreases k,
    {
        k -= 1;
        if widths[k] > best {
            best = widths[k];
        }
    }
    best
}

/// The columns of the value slot in a row `row_width` columns wide: the field's own width, or
/// its widest choice (at least 1), limited to what the row leaves beside the chrome (at least
/// 1).
pub open spec fn spec_text_slot_width(field: FieldSpec, row_width: u16) -> u16 {
    let auto = (if spec_max_option_width(field.kind) > 1 {
        spec_max_option_width(field.kind)
    } else {
        1
    }) as u16;
    let requested = match field.tui_combo_width {
        Some(w) => w,
        None => auto,
    };
    let max_text: u16 = if row_width > CHROME_WIDTH && row_width - CHROME_WIDTH > 1 {
        (row_width - CHROME_WIDTH) as u16
    } else {
        1
    };
    if requested < max_text {
        requested
    } else {
        max_text
    }
}

/// The columns of the value slot (see `spec_text_slot_width`).
pub fn resolve_text_slot_width(field: &FieldSpec, row_width: u16) -> (r: u16)
    ensures
        r == spec_text_slot_width(*field, row_width),
{
    let widest = max_combo_option_width(&field.kind);
    let auto = if widest > 1 {
        widest
    } else {
        1
    } as u16;
    let requested = match field.tui_combo_width {
        Some(w) => w,
        None => auto,
    };
    let max_text: u16 = if row_width > CHROME_WIDTH && row_width - CHROME_WIDTH > 1 {
        row_width - CHROME_WIDTH
    } else {
        1
    };
    if requested < max_text {
        requested
    } else {
        max_text
    }
}

/// Where the parts of a combo sit in a row starting at column `x`, `width` columns wide, with
/// a value slot of `text_w` columns: the cluster is right-aligned and the label takes the rest.
#[derive(Debug, Clone, Copy, PartialEq, Eq)]
pub struct ComboLayout {
    pub cluster_x: u16,
    pub cluster_w: u16,
    pub label_w: u16,
    pub open_x: u16,
    pub left_x: u16,
    pub text_x: u16,
    pub right_x: u16,
    pub close_x: u16,
}

/// `a + b`, saturating at `u16::MAX`.
pub open spec fn sat_add(a: u16, b: u16) -> u16 {
    if a + b > u16::MAX {
        u16::MAX
    } else {
        (a + b) as u16
    }
}

/// `a - b`, saturating at 0.
pub open spec fn sat_sub(a: u16, b: u16) -> u16 {
    if a >= b {
        (a - b) as u16
    } else {
        0
    }
}

/// The layout of a combo (see `ComboLayout`): cluster `text_w + 6` columns at the right end,
/// then open bracket, left arrow, pad, value slot, pad, right arrow, close bracket.
pub open spec fn spec_combo_layout(x: u16, width: u16, text_w: u16) -> ComboLayout {
    let cluster_w = sat_add(text_w, CHROME_WIDTH);
    let cluster_x = sat_add(x, sat_sub(width, cluster_w));
    let text_x = (cluster_x + 3) as u16;
    let after = sat_add(text_x, text_w);
    ComboLayout {
        cluster_x,
        cluster_w,
        label_w: sat_sub(cluster_x, x),
        open_x: cluster_x,
        left_x: (cluster_x + 1) as u16,
        text_x,
        right_x: (after + 1) as u16,
        close_x: (after + 2) as u16,
    }
}

/// The layout of a combo (see `spec_combo_layout`).
pub fn combo_layout(x: u16, width: u16, text_w: u16) -> (r: ComboLayout)
    requires
        x + width + text_w + CHROME_WIDTH <= u16::MAX,
    ensures
        r == spec_combo_layout(x, width, text_w),
{
    let cluster_w = text_w.saturating_add(CHROME_WIDTH);
    let cluster_x = x.saturating_add(width.saturating_sub(cluster_w));
    let text_x = cluster_x + 3;
    let after = text_x.saturating_add(text_w);
    ComboLayout {
        cluster_x,
        cluster_w,
        label_w: cluster_x.saturating_sub(x),
        open_x: cluster_x,
        left_x: cluster_x + 1,
        text_x,
        right_x: after + 1,
        close_x: after + 2,
    }
}

/// `text` cut to `max_chars` characters, the last one replaced by `…` when cut.
pub open spec fn spec_clip_label(text: Seq<char>, max_chars: usize) -> Seq<char> {
    if text.len() <= max_chars {
        text
    } else if max_chars == 0 {
        Seq::empty()
    } else {
        text.take(max_chars - 1).push('…')
    }
}

/// The label of a combo cut to `max_chars` characters (see `spec_clip_label`).
pub fn clip_label(text: &str, max_chars: usize) -> (r: String)
    ensures
        r@ == spec_clip_label(text@, max_chars),
{
    let v = chars_of(text);
    if v.len() <= max_chars {
        return text.to_owned();
    }
    if max_chars == 0 {
        return String::new();
    }
    let mut r = string_from_range(&v, 0, max_chars - 1);
    push_char(&mut r, '…');
    assert(v@.subrange(0, max_chars - 1) =~= v@.take(max_chars - 1));
    r
}

/// What the value slot of `slot_w` columns shows, and the left padding: a value that fits is
/// centred; an overflowing value scrolls (advancing `marquee` at `now`) when the row is selected
/// with embedded focus on the value, and is cut with `…` otherwise.
pub fn value_display(
    value: &str,
    slot_w: usize,
    selected: bool,
    embedded_inner: bool,
    marquee: &mut LabelMarquee,
    marquee_key: &str,
    now: u64,
) -> (r: (String, usize))
    requires
        now + MARQUEE_PAUSE_MS <= u64::MAX,
    ensures
        unicode_str_width(value@) <= slot_w ==> r.0@ == value@ && r.1 == spec_center_offset(value@, slot_w)
            && final(marquee)@ == old(marquee)@,
        unicode_str_width(value@) > slot_w && selected && embedded_inner ==> r.1 == 0 && ({
            let (m, offset) = spec_advance(old(marquee)@, marquee_key@, overflow_of(value@, slot_w), now);
            final(marquee)@ == m && r.0@ == spec_clip_window(value@, offset, slot_w)
        }),
        unicode_str_width(value@) > slot_w && !(selected && embedded_inner) ==> r.1 == 0 && r.0@ == spec_clip_right(
            value@,
            slot_w,
        ) && final(marquee)@ == old(marquee)@,
{
    let overflow = str_width(value) > slot_w;
    if overflow && selected && embedded_inner {
        let offset = marquee.advance(marquee_key, value, slot_w, now);
        (clip_window(value, offset, slot_w), 0)
    } else if overflow {
        (clip_right(value, slot_w), 0)
    } else {
        let display = value.to_owned();
        let x = center_offset(display.as_str(), slot_w);
        (display, x)
    }
}

} // verus!
