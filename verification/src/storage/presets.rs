//! Workflow presets of the TUI forms of `build.run` and `release.run`.
use vstd::prelude::*;

use crate::command::CommandSpec;
use crate::forms::{CommandForm, FormValueView, spec_set_boolean, spec_set_select_by_value, value_views};
use crate::text::str_eq;

verus! {

/// The preset a command's TUI form starts with: `local-integration` for `build.run`, `dry-run`
/// for `release.run`, none otherwise.
pub open spec fn spec_default_preset_id(command_id: Seq<char>) -> Option<&'static str> {
    if command_id == "build.run"@ {
        Some("local-integration")
    } else if command_id == "release.run"@ {
        Some("dry-run")
    } else {
        None
    }
}

/// The build steps and choices of a `build.run` preset, in the order the preset sets them.
pub open spec fn build_preset_values(
    v: Seq<FormValueView>,
    c: CommandSpec,
    steps: (bool, bool, bool, bool, bool, bool, bool),
    scope: Seq<char>,
    configuration: Seq<char>,
) -> Seq<FormValueView> {
    let v1 = spec_set_boolean(v, c, "step_config"@, steps.0);
    let v2 = spec_set_boolean(v1, c, "step_defs"@, steps.1);
    let v3 = spec_set_boolean(v2, c, "step_quality"@, steps.2);
    let v4 = spec_set_boolean(v3, c, "step_docs"@, steps.3);
    let v5 = spec_set_boolean(v4, c, "step_dotnet"@, steps.4);
    let v6 = spec_set_boolean(v5, c, "step_native"@, steps.5);
    let v7 = spec_set_boolean(v6, c, "step_verify"@, steps.6);
    let v8 = spec_set_select_by_value(v7, c, "native_scope"@, scope);
    spec_set_select_by_value(v8, c, "configuration"@, configuration)
}

/// The release steps and choices of a `release.run` preset, in the order the preset sets them.
pub open spec fn release_preset_values(
    v: Seq<FormValueView>,
    c: CommandSpec,
    cargo: bool,
    nuget: bool,
    dry_run: bool,
) -> Seq<FormValueView> {
    let v1 = spec_set_boolean(v, c, "step_cargo"@, cargo);
    let v2 = spec_set_boolean(v1, c, "step_nuget"@, nuget);
    let v3 = spec_set_boolean(v2, c, "dry_run"@, dry_run);
    spec_set_select_by_value(v3, c, "configuration"@, "Release"@)
}

/// The form values preset `preset` gives the form of `c`:
/// - `build.run` / `local-integration`: every step but docs and verify, host-only, Debug;
/// - `build.run` / `production-parity`: every step, host and cross-native, Release;
/// - `release.run` / `dry-run`: no Cargo or NuGet step, dry run, Release;
/// - `release.run` / `full-release`: both steps, no dry run, Release;
/// any other command or preset leaves the values as they are.
pub open spec fn spec_apply_preset(v: Seq<FormValueView>, c: CommandSpec, preset: Seq<char>) -> Seq<FormValueView> {
    if c.id@ == "build.run"@ {
        if preset == "local-integration"@ {
            build_preset_values(v, c, (true, true, true, false, true, true, false), "Host only"@, "Debug"@)
        } else if preset == "production-parity"@ {
            build_preset_values(v, c, (true, true, true, true, true, true, true), "Host + cross-native"@, "Release"@)
        } else {
            v
        }
    } else if c.id@ == "release.run"@ {
        if preset == "dry-run"@ {
            release_preset_values(v, c, false, false, true)
        } else if preset == "full-release"@ {
            release_preset_values(v, c, true, true, false)
        } else {
            v
        }
    } else {
        v
    }
}

/// Applies preset `preset_id` to the form of `command` (see `spec_apply_preset`).
pub fn apply_form_preset(form: &mut CommandForm, command: &CommandSpec, preset_id: &str)
    ensures
        final(form).command_id == old(form).command_id,
        final(form).selected_field == old(form).selected_field,
        value_views(final(form).values@) == spec_apply_preset(value_views(old(form).values@), *command, preset_id@),
{
    if str_eq(command.id, "build.run") {
        if str_eq(preset_id, "local-integration") {
            apply_build_preset(form, command, true, false, false, "Host only", "Debug");
        } else if str_eq(preset_id, "production-parity") {
            apply_build_preset(form, command, true, true, true, "Host + cross-native", "Release");
        }
    } else if str_eq(command.id, "release.run") {
        if str_eq(preset_id, "dry-run") {
            apply_release_preset(form, command, false, false, true);
        } else if str_eq(preset_id, "full-release") {
            apply_release_preset(form, command, true, true, false);
        }
    }
}

/// Sets the `build.run` steps (config, defs, quality, dotnet and native to `core`, docs to
/// `docs`, verify to `verify`) and the two choices.
fn apply_build_preset(
    form: &mut CommandForm,
    command: &CommandSpec,
    core: bool,
    docs: bool,
    verify: bool,
    scope: &str,
    configuration: &str,
)
    ensures
        final(form).command_id == old(form).command_id,
        final(form).selected_field == old(form).selected_field,
        value_views(final(form).values@) == build_preset_values(
            value_views(old(form).values@),
            *command,
            (core, core, core, docs, core, core, verify),
            scope@,
            configuration@,
        ),
{
    form.set_boolean(command, "step_config", core);
    form.set_boolean(command, "step_defs", core);
    form.set_boolean(command, "step_quality", core);
    form.set_boolean(command, "step_docs", docs);
    form.set_boolean(command, "step_dotnet", core);
    form.set_boolean(command, "step_native", core);
    form.set_boolean(command, "step_verify", verify);
    form.set_select_by_value(command, "native_scope", scope);
    form.set_select_by_value(command, "configuration", configuration);
}

/// Sets the `release.run` steps, the dry-run switch and the Release configuration.
fn apply_release_preset(form: &mut CommandForm, command: &CommandSpec, cargo: bool, nuget: bool, dry_run: bool)
    ensures
        final(form).command_id == old(form).command_id,
        final(form).selected_field == old(form).selected_field,
        value_views(final(form).values@) == release_preset_values(
            value_views(old(form).values@),
            *command,
            cargo,
            nuget,
            dry_run,
        ),
{
    form.set_boolean(command, "step_cargo", cargo);
    form.set_boolean(command, "step_nuget", nuget);
    form.set_boolean(command, "dry_run", dry_run);
    form.set_select_by_value(command, "configuration", "Release");
}

/// The preset a command's TUI form starts with (see `spec_default_preset_id`).
pub fn default_preset_id(command_id: &str) -> (r: Option<&'static str>)
    ensures
        r == spec_default_preset_id(command_id@),
{
    if str_eq(command_id, "build.run") {
        Some("local-integration")
    } else if str_eq(command_id, "release.run") {
        Some("dry-run")
    } else {
        None
    }
}

} // verus!
