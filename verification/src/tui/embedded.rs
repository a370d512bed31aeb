//! Which part of an option row has keyboard focus or was clicked.
use vstd::prelude::*;

use crate::tui::bios_combo::ComboPart;

verus! {

/// The embedded control of the options tab that holds focus.
#[derive(Debug, Clone, Copy, PartialEq, Eq, Structural)]
pub enum EmbeddedFocus {
    Combo { field_index: usize, part: ComboPart },
    Text { field_index: usize },
}

/// What a click on the options tab hit.
#[derive(Debug, Clone, Copy, PartialEq, Eq, Structural)]
pub enum OptionFieldAction {
    Field(usize),
    ComboPart { field: usize, part: ComboPart },
}

} // verus!
