//! One-line bracket buttons: `[ label ]`, placed at an exact column.
use vstd::prelude::*;

use crate::text::concat3;
use crate::tui::width::{str_width, unicode_str_width};

verus! {

pub const BUTTON_SLOT_HEIGHT: u16 = 1;
pub const BUTTON_MIN_WIDTH: u16 = 10;
pub const BUTTON_GAP: u16 = 1;

/// Exact bracket label with one space on each side of `label`.
pub fn bracket_label(label: &str) -> (r: String)
    ensures
        r@ == "[ "@ + label@ + " ]"@,
{
    concat3("[ ", label, " ]")
}

/// Display width of `[ label ]` (as a `u16`, truncating like `as u16`).
pub fn label_width(label: &str) -> (r: u16)
    ensures
        r == unicode_str_width("[ "@ + label@ + " ]"@) as u16,
{
    let text = bracket_label(label);
    str_width(text.as_str()) as u16
}

/// Where a button of `text_width` columns is painted in an area starting at column `x` and
/// `width` columns wide: centred, clipped to the area; `None` when nothing is painted.
pub open spec fn spec_button_span(x: u16, width: u16, text_width: u16) -> Option<(u16, u16)> {
    if width == 0 || text_width == 0 {
        None
    } else {
        let paint = if text_width < width {
            text_width
        } else {
            width
        };
        Some(((x + (width - paint) / 2) as u16, paint))
    }
}

/// The column and width a button is painted at (see `spec_button_span`).
pub fn button_span(x: u16, width: u16, text_width: u16) -> (r: Option<(u16, u16)>)
    requires
        x + width <= u16::MAX,
    ensures
        r == spec_button_span(x, width, text_width),
{
    if width == 0 || text_width == 0 {
        return None;
    }
    let paint = if text_width < width {
        text_width
    } else {
        width
    };
    Some((x + (width - paint) / 2, paint))
}

/// A painted button stays inside its area.
pub proof fn law_button_inside_area(x: u16, width: u16, text_width: u16)
    requires
        x + width <= u16::MAX,
    ensures
        spec_button_span(x, width, text_width) matches Some((bx, bw)) ==> x <= bx && bx + bw <= x + width,
{
}

} // verus!
