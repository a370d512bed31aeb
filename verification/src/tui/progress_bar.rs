//! The one-row capsule progress bar: rounded caps, a track filled from the left, and the
//! percentage centred over it. The fraction done is held as a whole percent.
use vstd::prelude::*;

use crate::interactive::{ProgressInfo, RunPhase};
use crate::repo_config::{decimal, decimal_string};
use crate::text::{chars_of, concat};

verus! {

/// The rounded left cap.
pub const CAP_LEFT: char = '\u{e0b6}';

/// The rounded right cap.
pub const CAP_RIGHT: char = '\u{e0b4}';

/// How a cell of the capsule is painted.
#[derive(Debug, Clone, Copy, PartialEq, Eq, Structural)]
pub enum CapsuleTone {
    /// A cap drawn in the fill colour.
    CapFill,
    /// A cap drawn in the track colour.
    CapTrack,
    /// A filled cell of the track.
    Fill,
    /// An unfilled cell of the track.
    Track,
    /// A character of the percentage over the fill: dark text on the fill colour.
    LabelOnFill,
    /// A character of the percentage over the track: normal text on the track colour.
    LabelOnTrack,
}

/// One cell of the capsule.
#[derive(Debug, Clone, Copy, PartialEq, Eq, Structural)]
pub struct CapsuleCell {
    pub ch: char,
    pub tone: CapsuleTone,
}

/// The percentage as shown: its digits and `%`.
pub open spec fn percent_label(percent: u16) -> Seq<char> {
    decimal(percent as nat) + "%"@
}

/// Whether the column `j` of a capsule `width` columns wide with `filled` track cells filled
/// lies on the fill: the left cap when anything is filled, the right cap when the whole track
/// is, a track cell when it is among the filled ones.
pub open spec fn on_fill(width: u16, filled: usize, j: int) -> bool {
    if j <= 0 {
        filled > 0
    } else if j >= width - 1 {
        filled >= width - 2
    } else {
        j - 1 < filled
    }
}

/// Cell `j` of a capsule of at least three columns: the caps at both ends, the track between
/// them filled for its first `filled` cells, and the percentage centred over everything (when
/// it fits), each of its characters dark on the fill or light on the track.
pub open spec fn spec_capsule_cell(width: u16, percent: u16, filled: usize, j: int) -> CapsuleCell {
    let label = percent_label(percent);
    let start = (width - label.len()) / 2;
    if label.len() <= width && start <= j < start + label.len() {
        CapsuleCell {
            ch: label[j - start],
            tone: if on_fill(width, filled, j) {
                CapsuleTone::LabelOnFill
            } else {
                CapsuleTone::LabelOnTrack
            },
        }
    } else if j == 0 {
        CapsuleCell {
            ch: CAP_LEFT,
            tone: if filled > 0 || percent == 100 {
                CapsuleTone::CapFill
            } else {
                CapsuleTone::CapTrack
            },
        }
    } else if j == width - 1 {
        CapsuleCell {
            ch: CAP_RIGHT,
            tone: if filled >= width - 2 {
                CapsuleTone::CapFill
            } else {
                CapsuleTone::CapTrack
            },
        }
    } else {
        CapsuleCell {
            ch: ' ',
            tone: if j - 1 < filled {
                CapsuleTone::Fill
            } else {
                CapsuleTone::Track
            },
        }
    }
}

/// The cells of a capsule `width` columns wide showing `percent` with `filled` track cells
/// filled, from the left: nothing for no columns, a single filled cell when there is no room
/// for the caps, otherwise one cell per column (see `spec_capsule_cell`).
pub fn capsule_cells(width: u16, percent: u16, filled: usize) -> (r: Vec<CapsuleCell>)
    ensures
        width == 0 ==> r@.len() == 0,
        0 < width < 3 ==> r@ == seq![CapsuleCell { ch: ' ', tone: CapsuleTone::Fill }],
        width >= 3 ==> r@.len() == width && forall|j: int|
            0 <= j < width ==> #[trigger] r@[j] == spec_capsule_cell(width, percent, filled, j),
{
    let mut cells: Vec<CapsuleCell> = Vec::new();
    if width == 0 {
        return cells;
    }
    if width < 3 {
        cells.push(CapsuleCell { ch: ' ', tone: CapsuleTone::Fill });
        return cells;
    }
    let track_width: usize = (width - 2) as usize;
    let left = if filled > 0 || percent == 100 {
        CapsuleTone::CapFill
    } else {
        CapsuleTone::CapTrack
    };
    cells.push(CapsuleCell { ch: CAP_LEFT, tone: left });
    let mut i: usize = 0;
    while i < track_width
        invariant
            width >= 3,
            track_width == width - 2,
            i <= track_width,
            cells@.len() == i + 1,
            cells@[0] == (CapsuleCell { ch: CAP_LEFT, tone: left }),
            forall|j: int|
                1 <= j <= i ==> #[trigger] cells@[j] == (CapsuleCell {
                    ch: ' ',
                    tone: if j - 1 < filled {
                        CapsuleTone::Fill
                    } else {
                        CapsuleTone::Track
                    },
                }),
        decreases track_width - i,
    {
        let tone = if i < filled {
            CapsuleTone::Fill
        } else {
            CapsuleTone::Track
        };
        cells.push(CapsuleCell { ch: ' ', tone });
        i += 1;
    }
    let right = if filled >= track_width {
        CapsuleTone::CapFill
    } else {
        CapsuleTone::CapTrack
    };
    cells.push(CapsuleCell { ch: CAP_RIGHT, tone: right });
    let digits = decimal_string(percent as u64);
    let label_text = concat(digits.as_str(), "%");
    let label = chars_of(label_text.as_str());
    assert(label@ == percent_label(percent));
    if label.len() <= width as usize {
        let start: usize = (width as usize - label.len()) / 2;
        let mut k: usize = 0;
        while k < label.len()
            invariant
                width >= 3,
                track_width == width - 2,
                label@ == percent_label(percent),
                label@.len() <= width,
                start == (width - label@.len()) / 2,
                k <= label@.len(),
                cells@.len() == width,
                forall|j: int|
                    0 <= j < width ==> #[trigger] cells@[j] == if start <= j < start + k {
                        spec_capsule_cell(width, percent, filled, j)
                    } else if j == 0 {
                        CapsuleCell { ch: CAP_LEFT, tone: left }
                    } else if j == width - 1 {
                        CapsuleCell { ch: CAP_RIGHT, tone: right }
                    } else {
                        CapsuleCell {
                            ch: ' ',
                            tone: if j - 1 < filled {
                                CapsuleTone::Fill
                            } else {
                                CapsuleTone::Track
                            },
                        }
                    },
            decreases label@.len() - k,
        {
            let x = start + k;
            let fill = if x == 0 {
                filled > 0
            } else if x >= width as usize - 1 {
                filled >= track_width
            } else {
                x - 1 < filled
            };
            let tone = if fill {
                CapsuleTone::LabelOnFill
            } else {
                CapsuleTone::LabelOnTrack
            };
            let ghost before = cells@;
            let cell = CapsuleCell { ch: label[k], tone };
            assert(cell == spec_capsule_cell(width, percent, filled, x as int));
            cells.set(x, cell);
            assert(cells@ == before.update(x as int, cell));
            k += 1;
        }
    }
    cells
}

/// The filled share of a track `track_width` cells long at `percent`, rounded half up.
pub open spec fn filled_cells(percent: u16, track_width: nat) -> nat {
    ((percent as nat) * track_width + 50) / 100
}

/// The percentage a progress report shows: none while analysing or without a report, else the
/// reported one, at most 100.
pub open spec fn shown_percent(progress: Option<ProgressInfo>) -> u16 {
    match progress {
        Some(p) => if p.phase == RunPhase::Analyzing {
            0
        } else if p.percent > 100 {
            100
        } else {
            p.percent as u16
        },
        None => 0,
    }
}

/// The capsule of the action panel for `progress`, `width` columns wide: the percentage shown
/// (see `shown_percent`) with its share of the track filled.
pub fn progress_capsule(progress: &Option<ProgressInfo>, width: u16) -> (r: Vec<CapsuleCell>)
    ensures
        width == 0 ==> r@.len() == 0,
        0 < width < 3 ==> r@ == seq![CapsuleCell { ch: ' ', tone: CapsuleTone::Fill }],
        width >= 3 ==> r@.len() == width && forall|j: int|
            0 <= j < width ==> #[trigger] r@[j] == spec_capsule_cell(
                width,
                shown_percent(*progress),
                filled_cells(shown_percent(*progress), (width - 2) as nat) as usize,
                j,
            ),
{
    let percent: u16 = match progress {
        Some(p) => match p.phase {
            RunPhase::Analyzing => 0,
            _ => if p.percent > 100 {
                100
            } else {
                p.percent as u16
            },
        },
        None => 0,
    };
    let track_width: usize = if width >= 2 {
        (width - 2) as usize
    } else {
        0
    };
    assert(percent * track_width <= 100 * 65535) by (nonlinear_arith)
        requires
            percent <= 100,
            track_width <= 65535,
    ;
    let filled: usize = (percent as usize * track_width + 50) / 100;
    capsule_cells(width, percent, filled)
}

} // verus!
