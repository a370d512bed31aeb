//! The BIOS-style text row `label  [ > value_ ]`: where its label, highlight cluster, prompt,
//! text slot and caret sit, and which part of the value the slot shows.
use vstd::prelude::*;

use crate::text::{chars_of, push_char, string_from_range};
use crate::tui::bios_combo::{clip_label, sat_add, sat_sub, spec_clip_label};
use crate::tui::text_marquee::fit_len;
use crate::tui::width::{char_cols_exec, str_width, unicode_str_width};

verus! {

/// The prompt drawn before the text slot.
pub const PROMPT: &'static str = ">";

/// Minimum text columns inside the highlight (keeps empty fields readable).
pub const MIN_TEXT_COLS: u16 = 4;

/// A rectangle of the terminal, in cells.
#[derive(Debug, Clone, Copy, PartialEq, Eq, Structural)]
pub struct Area {
    pub x: u16,
    pub y: u16,
    pub width: u16,
    pub height: u16,
}

/// The one-row rectangle at `(x, y)`, `width` columns wide.
pub open spec fn row_area(x: u16, y: u16, width: u16) -> Area {
    Area { x, y, width, height: 1 }
}

/// The parts of the highlight cluster `pad > text pad` and what the text slot shows.
#[derive(Debug, Clone, PartialEq, Eq)]
pub struct ClusterLayout {
    pub cluster_x: u16,
    pub cluster_w: u16,
    pub pad_left: Area,
    pub prompt: Area,
    pub text: Area,
    pub pad_right: Area,
    pub visible_text: String,
    pub cursor_x: u16,
}

/// The ghost view of a `ClusterLayout`.
pub struct ClusterModel {
    pub cluster_x: u16,
    pub cluster_w: u16,
    pub pad_left: Area,
    pub prompt: Area,
    pub text: Area,
    pub pad_right: Area,
    pub visible_text: Seq<char>,
    pub cursor_x: u16,
}

impl ClusterLayout {
    pub open spec fn model(&self) -> ClusterModel {
        ClusterModel {
            cluster_x: self.cluster_x,
            cluster_w: self.cluster_w,
            pad_left: self.pad_left,
            prompt: self.prompt,
            text: self.text,
            pad_right: self.pad_right,
            visible_text: self.visible_text@,
            cursor_x: self.cursor_x,
        }
    }
}

/// `a` or `b`, whichever is smaller.
pub open spec fn min_u16(a: u16, b: u16) -> u16 {
    if a <= b {
        a
    } else {
        b
    }
}

/// `a` or `b`, whichever is larger.
pub open spec fn max_u16(a: u16, b: u16) -> u16 {
    if a >= b {
        a
    } else {
        b
    }
}

/// The smaller of two counts.
pub open spec fn min_usize(a: usize, b: usize) -> usize {
    if a <= b {
        a
    } else {
        b
    }
}

/// `a - b`, saturating at 0.
pub open spec fn sat_sub_usize(a: usize, b: usize) -> usize {
    if a >= b {
        (a - b) as usize
    } else {
        0
    }
}

/// The columns the prompt takes (at least one).
pub open spec fn prompt_cols() -> usize {
    let w = unicode_str_width(PROMPT@);
    if w >= 1 {
        w
    } else {
        1
    }
}

/// `text` cut on the right so that it keeps what fits in `max_cols - 1` columns, then `…`:
/// the whole text when it fits, empty for no columns.
pub open spec fn spec_fit_right(text: Seq<char>, max_cols: usize) -> Seq<char> {
    if unicode_str_width(text) <= max_cols {
        text
    } else if max_cols == 0 {
        Seq::empty()
    } else {
        text.take(fit_len(text, (max_cols - 1) as nat, 0, 0)).push('…')
    }
}

/// The text cut to `max_cols` columns (see `spec_fit_right`).
pub fn fit_right(text: &str, max_cols: usize) -> (r: String)
    ensures
        r@ == spec_fit_right(text@, max_cols),
{
    if str_width(text) <= max_cols {
        return text.to_owned();
    }
    if max_cols == 0 {
        return String::new();
    }
    let budget = max_cols - 1;
    let v = chars_of(text);
    let mut i: usize = 0;
    let mut w: usize = 0;
    while i < v.len()
        invariant
            i <= v@.len(),
            v@ == text@,
            w <= budget,
            fit_len(text@, budget as nat, i as int, w as nat) == fit_len(text@, budget as nat, 0, 0),
        ensures
            i <= v@.len(),
            fit_len(text@, budget as nat, 0, 0) == i,
        decreases v.len() - i,
    {
        let cw = char_cols_exec(v[i]);
        if cw > budget - w {
            break;
        }
        w = w + cw;
        i = i + 1;
    }
    let mut out = string_from_range(&v, 0, i);
    push_char(&mut out, '…');
    assert(v@.subrange(0, i as int) =~= text@.take(i as int));
    out
}

/// What the text slot of `slot_w` columns shows of `value`, and the caret's column in it.
/// Idle, the value is cut on the right (one column kept free for the `_` cue of an empty
/// value); while editing, the window scrolls so that the caret (at `cursor_pos`, at most the
/// end) stays inside, and the caret sits just after the last character when it is at the end
/// and there is room.
pub open spec fn spec_visible_window(value: Seq<char>, cursor_pos: usize, slot_w: u16, inner_active: bool) -> (
    Seq<char>,
    usize,
) {
    let slot = slot_w as usize;
    if slot_w == 0 {
        (Seq::empty(), 0)
    } else if !inner_active {
        let clipped = spec_fit_right(value, (slot - (if value.len() == 0 { 1usize } else { 0usize })) as usize);
        let col = if value.len() == 0 {
            0
        } else {
            min_usize(unicode_str_width(clipped), slot)
        };
        (clipped, min_usize(col, (slot - 1) as usize))
    } else {
        let len = value.len();
        let cursor = min_usize(cursor_pos, len as usize);
        let start: usize = if len > slot {
            let s0 = sat_sub_usize(cursor, (slot - 1) as usize);
            if s0 + slot > len {
                (len - slot) as usize
            } else {
                s0
            }
        } else {
            0
        };
        let end = min_usize((start + slot) as usize, len as usize);
        let visible = value.subrange(start as int, end as int);
        let caret = min_usize(sat_sub_usize(cursor, start), (slot - 1) as usize);
        if cursor == len && unicode_str_width(visible) < slot {
            (visible, unicode_str_width(visible))
        } else {
            (visible, caret)
        }
    }
}

/// The window of the value that the slot shows, with the caret column (see
/// `spec_visible_window`).
pub fn visible_window(value: &str, cursor_pos: usize, slot_w: u16, inner_active: bool) -> (r: (String, usize))
    ensures
        (r.0@, r.1) == spec_visible_window(value@, cursor_pos, slot_w, inner_active),
{
    let slot = slot_w as usize;
    if slot_w == 0 {
        return (String::new(), 0);
    }
    let empty = value.unicode_len() == 0;
    if !inner_active {
        let keep = if empty {
            slot - 1
        } else {
            slot
        };
        let clipped = fit_right(value, keep);
        let col = if empty {
            0
        } else {
            let cw = str_width(clipped.as_str());
            if cw <= slot {
                cw
            } else {
                slot
            }
        };
        let caret = if col <= slot - 1 {
            col
        } else {
            slot - 1
        };
        return (clipped, caret);
    }
    let chars = chars_of(value);
    let len = chars.len();
    let cursor = if cursor_pos <= len {
        cursor_pos
    } else {
        len
    };
    let mut start: usize = 0;
    if len > slot {
        start = if cursor >= slot - 1 {
            cursor - (slot - 1)
        } else {
            0
        };
        if start > len - slot {
            start = len - slot;
        }
    }
    let end = if len - start > slot {
        start + slot
    } else {
        len
    };
    let visible = string_from_range(&chars, start, end);
    let back = if cursor >= start {
        cursor - start
    } else {
        0
    };
    let caret = if back <= slot - 1 {
        back
    } else {
        slot - 1
    };
    let vw = str_width(visible.as_str());
    if cursor == len && vw < slot {
        (visible, vw)
    } else {
        (visible, caret)
    }
}

/// The highlight cluster of a row at `(x, y)` whose label takes `label_w` columns and leaves
/// `avail`: pad, prompt, a text slot as wide as the value (plus a column for the idle `_` of an
/// empty value, at least `MIN_TEXT_COLS`, at most what `avail` leaves beside the chrome, at
/// least 1), pad; right-aligned in `avail`.
pub open spec fn spec_cluster_layout(
    x: u16,
    y: u16,
    label_w: u16,
    avail: u16,
    value: Seq<char>,
    inner_active: bool,
    cursor_pos: usize,
) -> ClusterModel {
    let prompt_w = prompt_cols() as u16;
    let chrome = sat_add(sat_add(1, prompt_w), 1);
    let max_text = max_u16(sat_sub(avail, chrome), 1);
    let content_w = unicode_str_width(value) as u16;
    let idle: u16 = if !inner_active && value.len() == 0 {
        1
    } else {
        0
    };
    let desired = min_u16(max_u16(sat_add(content_w, idle), MIN_TEXT_COLS), max_text);
    let cluster_w = sat_add(chrome, desired);
    let cluster_x = sat_add(sat_add(x, label_w), sat_sub(avail, cluster_w));
    let x1 = sat_add(cluster_x, 1);
    let x2 = sat_add(x1, prompt_w);
    let (visible, col) = spec_visible_window(value, cursor_pos, desired, inner_active);
    ClusterModel {
        cluster_x,
        cluster_w,
        pad_left: row_area(cluster_x, y, 1),
        prompt: row_area(x1, y, max_u16(prompt_w, 1)),
        text: row_area(x2, y, desired),
        pad_right: row_area(sat_add(x2, desired), y, 1),
        visible_text: visible,
        cursor_x: sat_add(x2, col as u16),
    }
}

/// The highlight cluster of a text row (see `spec_cluster_layout`).
pub fn cluster_layout(
    x: u16,
    y: u16,
    label_w: u16,
    avail: u16,
    value: &str,
    inner_active: bool,
    cursor_pos: usize,
) -> (r: ClusterLayout)
    ensures
        r.model() == spec_cluster_layout(x, y, label_w, avail, value@, inner_active, cursor_pos),
{
    let pw = str_width(PROMPT);
    let prompt_w = (if pw >= 1 {
        pw
    } else {
        1
    }) as u16;
    let chrome = 1u16.saturating_add(prompt_w).saturating_add(1);
    let room = avail.saturating_sub(chrome);
    let max_text = if room >= 1 {
        room
    } else {
        1
    };
    let content_w = str_width(value) as u16;
    let idle: u16 = if !inner_active && value.unicode_len() == 0 {
        1
    } else {
        0
    };
    let grown = content_w.saturating_add(idle);
    let wanted = if grown >= MIN_TEXT_COLS {
        grown
    } else {
        MIN_TEXT_COLS
    };
    let desired = if wanted <= max_text {
        wanted
    } else {
        max_text
    };
    let cluster_w = chrome.saturating_add(desired);
    let cluster_x = x.saturating_add(label_w).saturating_add(avail.saturating_sub(cluster_w));
    let x1 = cluster_x.saturating_add(1);
    let x2 = x1.saturating_add(prompt_w);
    let (visible, col) = visible_window(value, cursor_pos, desired, inner_active);
    let prompt_area_w = if prompt_w >= 1 {
        prompt_w
    } else {
        1
    };
    ClusterLayout {
        cluster_x,
        cluster_w,
        pad_left: Area { x: cluster_x, y, width: 1, height: 1 },
        prompt: Area { x: x1, y, width: prompt_area_w, height: 1 },
        text: Area { x: x2, y, width: desired, height: 1 },
        pad_right: Area { x: x2.saturating_add(desired), y, width: 1, height: 1 },
        visible_text: visible,
        cursor_x: x2.saturating_add(col as u16),
    }
}


/// The clickable parts of a text row.
#[derive(Debug, Clone, Copy, PartialEq, Eq, Structural)]
pub struct TextboxClickRegions {
    pub label: Area,
    pub input: Area,
    pub row: Area,
}

/// Everything a text row shows and where: the label (after a `> ` marker when selected, cut
/// to its columns), the highlight cluster, the clickable regions, the terminal caret while
/// editing and the `_` cue of an idle empty value.
#[derive(Debug, Clone, PartialEq, Eq)]
pub struct TextboxLayout {
    pub label_prefix: &'static str,
    pub label_text: String,
    pub cluster: ClusterLayout,
    pub regions: TextboxClickRegions,
    pub cursor: Option<(u16, u16)>,
    pub placeholder: Option<(u16, u16)>,
}

/// The columns the label takes: the marker, the label and a space, at most the row's width.
pub open spec fn spec_label_cols(label: Seq<char>, width: u16) -> u16 {
    let w = unicode_str_width(label + " "@);
    if 2 + w <= width {
        (2 + w) as u16
    } else {
        width
    }
}

/// The columns left for the cluster beside a label of `label_w` columns (at least 1).
pub open spec fn spec_avail(width: u16, label_w: u16) -> u16 {
    max_u16(sat_sub(width, label_w), 1)
}

/// Lays out a text row in `area` (see `TextboxLayout`): the row is editing when it is selected
/// with embedded focus.
pub fn bios_textbox_layout(
    area: Area,
    label: &str,
    value: &str,
    selected: bool,
    embedded: bool,
    cursor_pos: usize,
) -> (r: TextboxLayout)
    ensures
        ({
            let inner_active = selected && embedded;
            let label_w = spec_label_cols(label@, area.width);
            let avail = spec_avail(area.width, label_w);
            let c = spec_cluster_layout(area.x, area.y, label_w, avail, value@, inner_active, cursor_pos);
            &&& r.label_prefix@ == (if selected {
                "> "@
            } else {
                "  "@
            })
            &&& r.label_text@ == spec_clip_label(label@ + " "@, sat_sub(label_w, 2) as usize)
            &&& r.cluster.model() == c
            &&& r.regions == TextboxClickRegions {
                label: row_area(area.x, area.y, max_u16(label_w, 1)),
                input: row_area(c.cluster_x, area.y, c.cluster_w),
                row: area,
            }
            &&& r.cursor == (if inner_active {
                Some((c.cursor_x, area.y))
            } else {
                None
            })
            &&& r.placeholder == (if !inner_active && value@.len() == 0 {
                Some((c.cursor_x, area.y))
            } else {
                None
            })
        }),
{
    let inner_active = selected && embedded;
    let label_line = crate::text::concat(label, " ");
    let lw = str_width(label_line.as_str());
    let label_w: u16 = if lw < area.width as usize && lw + 2 <= area.width as usize {
        (lw + 2) as u16
    } else {
        area.width
    };
    let label_text = clip_label(label_line.as_str(), label_w.saturating_sub(2) as usize);
    let room = area.width.saturating_sub(label_w);
    let avail = if room >= 1 {
        room
    } else {
        1
    };
    let cluster = cluster_layout(area.x, area.y, label_w, avail, value, inner_active, cursor_pos);
    let label_area_w = if label_w >= 1 {
        label_w
    } else {
        1
    };
    let regions = TextboxClickRegions {
        label: Area { x: area.x, y: area.y, width: label_area_w, height: 1 },
        input: Area { x: cluster.cluster_x, y: area.y, width: cluster.cluster_w, height: 1 },
        row: area,
    };
    let cursor = if inner_active {
        Some((cluster.cursor_x, area.y))
    } else {
        None
    };
    let placeholder = if !inner_active && value.unicode_len() == 0 {
        Some((cluster.cursor_x, area.y))
    } else {
        None
    };
    let label_prefix = if selected {
        "> "
    } else {
        "  "
    };
    TextboxLayout { label_prefix, label_text, cluster, regions, cursor, placeholder }
}

} // verus!
