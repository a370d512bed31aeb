//! The Dhara Storage answers to the kernel's product questions.
use vstd::prelude::*;

use crate::command::CommandSpec;
use crate::forms::{CommandForm, value_views};
use crate::product::ProductHooks;
use crate::storage::presets::{apply_form_preset, default_preset_id, spec_apply_preset, spec_default_preset_id};

verus! {

/// Dhara Storage `ProductHooks` implementation.
pub struct StorageProductHooks;

/// The form values after the default preset of `command` (if it has one) is applied.
pub open spec fn spec_initialize_tui_form(
    v: Seq<crate::forms::FormValueView>,
    command: CommandSpec,
) -> Seq<crate::forms::FormValueView> {
    match spec_default_preset_id(command.id@) {
        Some(p) => spec_apply_preset(v, command, p@),
        None => v,
    }
}

impl ProductHooks for StorageProductHooks {
    fn cargo_workspace_deps(&self) -> (r: &'static [&'static str])
        ensures
            r@ == seq!["dhara_storage_core", "dhara_storage"],
    {
        let r: &'static [&'static str] = &["dhara_storage_core", "dhara_storage"];
        assert(r@ =~= seq!["dhara_storage_core", "dhara_storage"]);
        r
    }

    fn embedded_defs_relative(&self) -> (r: &'static str)
        ensures
            r == "core/dhara_storage/resources/filedefs.dat",
    {
        "core/dhara_storage/resources/filedefs.dat"
    }

    fn embedded_defs_dir_relative(&self) -> (r: &'static str)
        ensures
            r == "core/dhara_storage/resources",
    {
        "core/dhara_storage/resources"
    }

    open spec fn initialized_values(
        &self,
        values: Seq<crate::forms::FormValueView>,
        command: CommandSpec,
    ) -> Seq<crate::forms::FormValueView> {
        spec_initialize_tui_form(values, command)
    }

    fn initialize_tui_form(&self, form: &mut CommandForm, command: &CommandSpec)
        ensures
            final(form).command_id == old(form).command_id,
            final(form).selected_field == old(form).selected_field,
            value_views(final(form).values@) == spec_initialize_tui_form(value_views(old(form).values@), *command),
    {
        initialize_tui_form(form, command);
    }

    open spec fn preset_values(
        &self,
        values: Seq<crate::forms::FormValueView>,
        command: CommandSpec,
        preset_id: Seq<char>,
    ) -> Seq<crate::forms::FormValueView> {
        spec_apply_preset(values, command, preset_id)
    }

    fn apply_tui_preset(&self, form: &mut CommandForm, command: &CommandSpec, preset_id: &str)
        ensures
            final(form).command_id == old(form).command_id,
            final(form).selected_field == old(form).selected_field,
            value_views(final(form).values@) == spec_apply_preset(value_views(old(form).values@), *command, preset_id@),
    {
        apply_form_preset(form, command, preset_id);
    }
}

/// Applies the default TUI preset for commands that define workflow presets.
pub fn initialize_tui_form(form: &mut CommandForm, command: &CommandSpec)
    ensures
        final(form).command_id == old(form).command_id,
        final(form).selected_field == old(form).selected_field,
        value_views(final(form).values@) == spec_initialize_tui_form(value_views(old(form).values@), *command),
{
    if let Some(preset_id) = default_preset_id(command.id) {
        apply_form_preset(form, command, preset_id);
    }
}

} // verus!
