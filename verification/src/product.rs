//! What a product tells the kernel about itself.
use vstd::prelude::*;

use crate::command::CommandSpec;
use crate::forms::{CommandForm, FormValueView, value_views};

verus! {

/// Product facts and form behaviour the kernel asks of the linked product.
pub trait ProductHooks {
    /// Cargo workspace dependency names to sync on version bump.
    fn cargo_workspace_deps(&self) -> &'static [&'static str];

    /// Relative path from repo root to embedded defs package file.
    fn embedded_defs_relative(&self) -> &'static str;

    /// Relative path from repo root to embedded defs directory.
    fn embedded_defs_dir_relative(&self) -> &'static str;

    /// The form values a fresh TUI form of `command` holding `values` is prepared with.
    spec fn initialized_values(&self, values: Seq<FormValueView>, command: CommandSpec) -> Seq<FormValueView>;

    /// Prepares a fresh TUI form of `command`: its values become those of `initialized_values`,
    /// and the form stays the form of the same command with the same focus.
    fn initialize_tui_form(&self, form: &mut CommandForm, command: &CommandSpec)
        ensures
            final(form).command_id == old(form).command_id,
            final(form).selected_field == old(form).selected_field,
            value_views(final(form).values@) == self.initialized_values(value_views(old(form).values@), *command),
    ;

    /// The form values the TUI preset `preset_id` gives a form of `command` holding `values`.
    spec fn preset_values(&self, values: Seq<FormValueView>, command: CommandSpec, preset_id: Seq<char>) -> Seq<
        FormValueView,
    >;

    /// Applies the TUI preset `preset_id` to the form of `command`: its values become those of
    /// `preset_values`, and the form stays the form of the same command with the same focus.
    fn apply_tui_preset(&self, form: &mut CommandForm, command: &CommandSpec, preset_id: &str)
        ensures
            final(form).command_id == old(form).command_id,
            final(form).selected_field == old(form).selected_field,
            value_views(final(form).values@) == self.preset_values(value_views(old(form).values@), *command, preset_id@),
    ;
}

} // verus!
