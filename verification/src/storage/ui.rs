//! Option schemas of the Dhara Storage commands: which fields each command's form has, how each
//! is edited and how it is serialized.
use vstd::prelude::*;

use crate::command::{ArgBinding, CommandUi, FieldKind, FieldSpec, PresetOption};
use crate::storage::strings::{s, spec_ui_string};
use crate::text::str_eq;

verus! {

/// The parts a version bump can raise.
pub open spec fn version_parts() -> &'static [&'static str] {
    &["major", "minor", "patch"]
}

/// The build configurations.
pub open spec fn configurations() -> &'static [&'static str] {
    &["Debug", "Release"]
}

/// The modes of `package publish`.
pub open spec fn dry_run_options() -> &'static [&'static str] {
    &["dry-run", "execute"]
}

/// The native staging scopes of `build run`.
pub open spec fn native_scopes() -> &'static [&'static str] {
    &["Host only", "Host + cross-native"]
}

/// The presets of `build run`.
pub open spec fn build_run_presets() -> &'static [PresetOption] {
    &[
        PresetOption { id: "local-integration", label: "Local integration" },
        PresetOption { id: "production-parity", label: "Production parity" },
        PresetOption { id: "custom", label: "Custom" },
    ]
}

/// The presets of `release run`.
pub open spec fn release_run_presets() -> &'static [PresetOption] {
    &[PresetOption { id: "dry-run", label: "Dry run" }, PresetOption { id: "full-release", label: "Full release" }]
}

/// A UI text looked up by a key written as a literal.
pub open spec fn t(key: &'static str) -> &'static str {
    spec_ui_string(key@)
}

/// A TUI-only preset picker whose default is the first preset.
pub open spec fn preset_field_spec(
    key: &'static str,
    label: &'static str,
    help: &'static str,
    options: &'static [PresetOption],
    group: Option<&'static str>,
) -> FieldSpec {
    FieldSpec {
        key,
        label,
        help,
        kind: FieldKind::Preset(options),
        binding: ArgBinding::Switch("__preset"),
        required: false,
        default_value: Some(
            if options@.len() > 0 {
                options@[0].id
            } else {
                ""
            },
        ),
        tui_default_value: None,
        group,
        invert_switch: false,
        tui_only: true,
        tui_combo_width: None,
    }
}

/// A workflow step shown as "include": checked means the skip flag `flag` is left out.
pub open spec fn include_step_spec(
    key: &'static str,
    label: &'static str,
    help: &'static str,
    flag: &'static str,
    cli_default: Option<&'static str>,
    tui_default: Option<&'static str>,
    group: Option<&'static str>,
) -> FieldSpec {
    FieldSpec {
        key,
        label,
        help,
        kind: FieldKind::Boolean,
        binding: ArgBinding::Switch(flag),
        required: false,
        default_value: cli_default,
        tui_default_value: tui_default,
        group,
        invert_switch: true,
        tui_only: false,
        tui_combo_width: None,
    }
}

/// A combo serialized as `flag value`, except `--cross-native`, which is a switch set by any
/// option past the first.
pub open spec fn combo_field_spec(
    key: &'static str,
    label: &'static str,
    help: &'static str,
    flag: &'static str,
    options: &'static [&'static str],
    default_value: Option<&'static str>,
    tui_default_value: Option<&'static str>,
    group: Option<&'static str>,
) -> FieldSpec {
    FieldSpec {
        key,
        label,
        help,
        kind: FieldKind::Combo(options),
        binding: if flag@ == "--cross-native"@ {
            ArgBinding::Switch(flag)
        } else {
            ArgBinding::FlagValue(flag)
        },
        required: false,
        default_value,
        tui_default_value,
        group,
        invert_switch: false,
        tui_only: false,
        tui_combo_width: None,
    }
}

/// Radio buttons whose choice becomes the word `--{option}`.
pub open spec fn radio_field_spec(
    key: &'static str,
    label: &'static str,
    help: &'static str,
    options: &'static [&'static str],
    default_value: Option<&'static str>,
    tui_default_value: Option<&'static str>,
    group: Option<&'static str>,
) -> FieldSpec {
    FieldSpec {
        key,
        label,
        help,
        kind: FieldKind::Radio(options),
        binding: ArgBinding::FlagValue("__mode"),
        required: false,
        default_value,
        tui_default_value,
        group,
        invert_switch: false,
        tui_only: false,
        tui_combo_width: None,
    }
}

/// A free text field.
pub open spec fn text_field_spec(
    key: &'static str,
    label: &'static str,
    help: &'static str,
    binding: ArgBinding,
    required: bool,
    default_value: Option<&'static str>,
    group: Option<&'static str>,
) -> FieldSpec {
    FieldSpec {
        key,
        label,
        help,
        kind: FieldKind::Text,
        binding,
        required,
        default_value,
        tui_default_value: None,
        group,
        invert_switch: false,
        tui_only: false,
        tui_combo_width: None,
    }
}

/// A path serialized as `flag path`; `required` says whether it may be left empty.
pub open spec fn path_field_spec(
    key: &'static str,
    label: &'static str,
    help: &'static str,
    flag: &'static str,
    required: bool,
    group: Option<&'static str>,
) -> FieldSpec {
    FieldSpec {
        key,
        label,
        help,
        kind: FieldKind::Path,
        binding: ArgBinding::FlagValue(flag),
        required,
        default_value: None,
        tui_default_value: None,
        group,
        invert_switch: false,
        tui_only: false,
        tui_combo_width: None,
    }
}

/// A plain switch with its own defaults.
pub open spec fn switch_field_spec(
    key: &'static str,
    label: &'static str,
    help: &'static str,
    flag: &'static str,
    default_value: Option<&'static str>,
    tui_default_value: Option<&'static str>,
    group: Option<&'static str>,
) -> FieldSpec {
    FieldSpec {
        key,
        label,
        help,
        kind: FieldKind::Boolean,
        binding: ArgBinding::Switch(flag),
        required: false,
        default_value,
        tui_default_value,
        group,
        invert_switch: false,
        tui_only: false,
        tui_combo_width: None,
    }
}

/// The fields of `verify.package` and `package.pack`.
pub open spec fn package_fields() -> Seq<FieldSpec> {
    seq![
        combo_field_spec(
            "configuration",
            t("cmd.package.field.configuration.label"),
            t("cmd.package.field.configuration.help"),
            "--configuration",
            configurations(),
            Some("Release"),
            None,
            Some(t("group.package")),
        ),
        text_field_spec(
            "version",
            t("cmd.package.field.version.label"),
            t("cmd.package.field.version.help"),
            ArgBinding::FlagValue("--version"),
            false,
            None,
            Some(t("group.package")),
        ),
    ]
}

/// The fields of `build.run`.
pub open spec fn build_run_fields() -> Seq<FieldSpec> {
    let workflow = Some(t("cmd.build.run.group.workflow"));
    let advanced = Some(t("cmd.build.run.group.advanced"));
    seq![
        preset_field_spec(
            "preset",
            t("cmd.build.run.field.preset.label"),
            t("cmd.build.run.field.preset.help"),
            build_run_presets(),
            Some(t("cmd.build.run.group.preset")),
        ),
        include_step_spec(
            "step_config",
            t("cmd.build.run.field.step_config.label"),
            t("cmd.build.run.field.step_config.help"),
            "--skip-config",
            Some("true"),
            Some("true"),
            workflow,
        ),
        include_step_spec(
            "step_defs",
            t("cmd.build.run.field.step_defs.label"),
            t("cmd.build.run.field.step_defs.help"),
            "--skip-defs",
            Some("true"),
            Some("true"),
            workflow,
        ),
        include_step_spec(
            "step_quality",
            t("cmd.build.run.field.step_quality.label"),
            t("cmd.build.run.field.step_quality.help"),
            "--skip-quality",
            Some("true"),
            Some("true"),
            workflow,
        ),
        include_step_spec(
            "step_docs",
            t("cmd.build.run.field.step_docs.label"),
            t("cmd.build.run.field.step_docs.help"),
            "--skip-docs",
            Some("true"),
            Some("false"),
            workflow,
        ),
        include_step_spec(
            "step_dotnet",
            t("cmd.build.run.field.step_dotnet.label"),
            t("cmd.build.run.field.step_dotnet.help"),
            "--skip-dotnet",
            Some("true"),
            Some("true"),
            workflow,
        ),
        include_step_spec(
            "step_native",
            t("cmd.build.run.field.step_native.label"),
            t("cmd.build.run.field.step_native.help"),
            "--skip-native",
            Some("true"),
            Some("true"),
            workflow,
        ),
        include_step_spec(
            "step_verify",
            t("cmd.build.run.field.step_verify.label"),
            t("cmd.build.run.field.step_verify.help"),
            "--skip-verify",
            Some("true"),
            Some("false"),
            workflow,
        ),
        combo_field_spec(
            "native_scope",
            t("cmd.build.run.field.native_scope.label"),
            t("cmd.build.run.field.native_scope.help"),
            "--cross-native",
            native_scopes(),
            Some("Host only"),
            Some("Host only"),
            advanced,
        ),
        combo_field_spec(
            "configuration",
            t("cmd.build.run.field.configuration.label"),
            t("cmd.build.run.field.configuration.help"),
            "--configuration",
            configurations(),
            Some("Release"),
            Some("Debug"),
            advanced,
        ),
    ]
}

/// The fields of `release.run`.
pub open spec fn release_run_fields() -> Seq<FieldSpec> {
    let steps = Some(t("cmd.release.run.group.steps"));
    let advanced = Some(t("cmd.release.run.group.advanced"));
    seq![
        preset_field_spec(
            "preset",
            t("cmd.release.run.field.preset.label"),
            t("cmd.release.run.field.preset.help"),
            release_run_presets(),
            Some(t("cmd.release.run.group.preset")),
        ),
        include_step_spec(
            "step_cargo",
            t("cmd.release.run.field.step_cargo.label"),
            t("cmd.release.run.field.step_cargo.help"),
            "--skip-cargo",
            Some("true"),
            Some("false"),
            steps,
        ),
        include_step_spec(
            "step_nuget",
            t("cmd.release.run.field.step_nuget.label"),
            t("cmd.release.run.field.step_nuget.help"),
            "--skip-nuget",
            Some("true"),
            Some("false"),
            steps,
        ),
        combo_field_spec(
            "configuration",
            t("cmd.release.run.field.configuration.label"),
            t("cmd.release.run.field.configuration.help"),
            "--configuration",
            configurations(),
            Some("Release"),
            None,
            advanced,
        ),
        text_field_spec(
            "source",
            t("cmd.release.run.field.source.label"),
            t("cmd.release.run.field.source.help"),
            ArgBinding::FlagValue("--source"),
            false,
            None,
            advanced,
        ),
        switch_field_spec(
            "dry_run",
            t("cmd.release.run.field.dry_run.label"),
            t("cmd.release.run.field.dry_run.help"),
            "--dry-run",
            Some("false"),
            Some("true"),
            advanced,
        ),
    ]
}

/// The fields of `package.publish`.
pub open spec fn publish_fields() -> Seq<FieldSpec> {
    seq![
        radio_field_spec(
            "mode",
            t("cmd.package.publish.field.mode.label"),
            t("cmd.package.publish.field.mode.help"),
            dry_run_options(),
            Some("dry-run"),
            None,
            Some(t("group.mode")),
        ),
        combo_field_spec(
            "configuration",
            t("cmd.package.publish.field.configuration.label"),
            t("cmd.package.publish.field.configuration.help"),
            "--configuration",
            configurations(),
            Some("Release"),
            None,
            Some(t("group.package")),
        ),
        text_field_spec(
            "version",
            t("cmd.package.publish.field.version.label"),
            t("cmd.package.publish.field.version.help"),
            ArgBinding::FlagValue("--version"),
            false,
            None,
            Some(t("group.package")),
        ),
        text_field_spec(
            "source",
            t("cmd.package.publish.field.source.label"),
            t("cmd.package.publish.field.source.help"),
            ArgBinding::FlagValue("--source"),
            false,
            None,
            Some(t("group.package")),
        ),
    ]
}

/// One path field of a `defs` command, with its texts looked up by key.
pub open spec fn defs_path(key: &'static str, flag: &'static str, label_key: &'static str, help_key: &'static str, required: bool) -> FieldSpec {
    path_field_spec(key, t(label_key), t(help_key), flag, required, Some(t("group.paths")))
}

/// The option schema of command `id`: its description, fields, and whether it runs from the
/// quick list and can be cancelled. An unknown id gets its summary as description and no
/// fields.
pub open spec fn spec_ui(id: Seq<char>, summary: &'static str) -> (&'static str, Seq<FieldSpec>, bool, bool) {
    if id == "config.show"@ {
        (t("cmd.config.show.description"), Seq::empty(), true, false)
    } else if id == "config.env.init"@ {
        (t("cmd.config.env.init.description"), Seq::empty(), true, false)
    } else if id == "version.set"@ {
        (
            t("cmd.version.set.description"),
            seq![
                text_field_spec(
                    "version",
                    t("cmd.version.set.field.version.label"),
                    t("cmd.version.set.field.version.help"),
                    ArgBinding::Positional,
                    true,
                    None,
                    Some(t("group.general")),
                ),
            ],
            true,
            false,
        )
    } else if id == "version.bump"@ {
        (
            t("cmd.version.bump.description"),
            seq![
                combo_field_spec(
                    "part",
                    t("cmd.version.bump.field.part.label"),
                    t("cmd.version.bump.field.part.help"),
                    "--part",
                    version_parts(),
                    Some("minor"),
                    None,
                    Some(t("group.general")),
                ),
            ],
            true,
            false,
        )
    } else if id == "defs.pack"@ {
        (
            t("cmd.defs.pack.description"),
            seq![defs_path("output", "--output", "cmd.defs.pack.field.output.label", "cmd.defs.pack.field.output.help", false)],
            false,
            false,
        )
    } else if id == "defs.build-trid-xml"@ {
        (
            t("cmd.defs.build-trid-xml.description"),
            seq![
                defs_path("input", "--input", "cmd.defs.build-trid-xml.field.input.label", "cmd.defs.build-trid-xml.field.input.help", false),
                defs_path("output", "--output", "cmd.defs.build-trid-xml.field.output.label", "cmd.defs.build-trid-xml.field.output.help", false),
            ],
            false,
            false,
        )
    } else if id == "defs.inspect"@ {
        (
            t("cmd.defs.inspect.description"),
            seq![defs_path("input", "--input", "cmd.defs.inspect.field.input.label", "cmd.defs.inspect.field.input.help", false)],
            false,
            false,
        )
    } else if id == "defs.inspect-trid-xml"@ {
        (
            t("cmd.defs.inspect-trid-xml.description"),
            seq![defs_path("input", "--input", "cmd.defs.inspect-trid-xml.field.input.label", "cmd.defs.inspect-trid-xml.field.input.help", false)],
            false,
            false,
        )
    } else if id == "defs.normalize"@ {
        (
            t("cmd.defs.normalize.description"),
            seq![
                defs_path("input", "--input", "cmd.defs.normalize.field.input.label", "cmd.defs.normalize.field.input.help", false),
                defs_path("output", "--output", "cmd.defs.normalize.field.output.label", "cmd.defs.normalize.field.output.help", false),
            ],
            false,
            false,
        )
    } else if id == "defs.verify"@ {
        (
            t("cmd.defs.verify.description"),
            seq![
                defs_path("left", "--left", "cmd.defs.verify.field.left.label", "cmd.defs.verify.field.left.help", true),
                defs_path("right", "--right", "cmd.defs.verify.field.right.label", "cmd.defs.verify.field.right.help", true),
            ],
            false,
            false,
        )
    } else if id == "defs.sync-embedded"@ {
        (
            t("cmd.defs.sync-embedded.description"),
            seq![
                defs_path("input", "--input", "cmd.defs.sync-embedded.field.input.label", "cmd.defs.sync-embedded.field.input.help", false),
                defs_path("output", "--output", "cmd.defs.sync-embedded.field.output.label", "cmd.defs.sync-embedded.field.output.help", false),
                switch_field_spec(
                    "check",
                    t("cmd.defs.sync-embedded.field.check.label"),
                    t("cmd.defs.sync-embedded.field.check.help"),
                    "--check",
                    Some("false"),
                    None,
                    Some(t("group.mode")),
                ),
            ],
            false,
            false,
        )
    } else if id == "verify.package"@ {
        (t("cmd.verify.package.description"), package_fields(), true, true)
    } else if id == "package.pack"@ {
        (t("cmd.package.pack.description"), package_fields(), true, true)
    } else if id == "package.publish"@ {
        (t("cmd.package.publish.description"), publish_fields(), false, true)
    } else if id == "build.run"@ {
        (t("cmd.build.run.description"), build_run_fields(), true, true)
    } else if id == "release.run"@ {
        (t("cmd.release.run.description"), release_run_fields(), false, true)
    } else {
        (summary, Seq::empty(), false, false)
    }
}

/// `r` is the UI `spec_ui` gives.
pub open spec fn is_ui(r: CommandUi, id: Seq<char>, summary: &'static str) -> bool {
    let (d, f, q, c) = spec_ui(id, summary);
    r.description == d && r.fields@ == f && r.quick_run == q && r.supports_cancel == c
}

fn preset_field(
    key: &'static str,
    label: &'static str,
    help: &'static str,
    options: &'static [PresetOption],
    group: Option<&'static str>,
) -> (r: FieldSpec)
    ensures
        r == preset_field_spec(key, label, help, options, group),
{
    let first = if options.len() > 0 {
        options[0].id
    } else {
        ""
    };
    FieldSpec {
        key,
        label,
        help,
        kind: FieldKind::Preset(options),
        binding: ArgBinding::Switch("__preset"),
        required: false,
        default_value: Some(first),
        tui_default_value: None,
        group,
        invert_switch: false,
        tui_only: true,
        tui_combo_width: None,
    }
}

fn include_step(
    key: &'static str,
    label: &'static str,
    help: &'static str,
    flag: &'static str,
    cli_default: Option<&'static str>,
    tui_default: Option<&'static str>,
    group: Option<&'static str>,
) -> (r: FieldSpec)
    ensures
        r == include_step_spec(key, label, help, flag, cli_default, tui_default, group),
{
    FieldSpec {
        key,
        label,
        help,
        kind: FieldKind::Boolean,
        binding: ArgBinding::Switch(flag),
        required: false,
        default_value: cli_default,
        tui_default_value: tui_default,
        group,
        invert_switch: true,
        tui_only: false,
        tui_combo_width: None,
    }
}

fn combo_field(
    key: &'static str,
    label: &'static str,
    help: &'static str,
    flag: &'static str,
    options: &'static [&'static str],
    default_value: Option<&'static str>,
    tui_default_value: Option<&'static str>,
    group: Option<&'static str>,
) -> (r: FieldSpec)
    ensures
        r == combo_field_spec(key, label, help, flag, options, default_value, tui_default_value, group),
{
    let binding = if str_eq(flag, "--cross-native") {
        ArgBinding::Switch(flag)
    } else {
        ArgBinding::FlagValue(flag)
    };
    FieldSpec {
        key,
        label,
        help,
        kind: FieldKind::Combo(options),
        binding,
        required: false,
        default_value,
        tui_default_value,
        group,
        invert_switch: false,
        tui_only: false,
        tui_combo_width: None,
    }
}

fn radio_field(
    key: &'static str,
    label: &'static str,
    help: &'static str,
    options: &'static [&'static str],
    default_value: Option<&'static str>,
    tui_default_value: Option<&'static str>,
    group: Option<&'static str>,
) -> (r: FieldSpec)
    ensures
        r == radio_field_spec(key, label, help, options, default_value, tui_default_value, group),
{
    FieldSpec {
        key,
        label,
        help,
        kind: FieldKind::Radio(options),
        binding: ArgBinding::FlagValue("__mode"),
        required: false,
        default_value,
        tui_default_value,
        group,
        invert_switch: false,
        tui_only: false,
        tui_combo_width: None,
    }
}

fn text_field(
    key: &'static str,
    label: &'static str,
    help: &'static str,
    binding: ArgBinding,
    required: bool,
    default_value: Option<&'static str>,
    group: Option<&'static str>,
) -> (r: FieldSpec)
    ensures
        r == text_field_spec(key, label, help, binding, required, default_value, group),
{
    FieldSpec {
        key,
        label,
        help,
        kind: FieldKind::Text,
        binding,
        required,
        default_value,
        tui_default_value: None,
        group,
        invert_switch: false,
        tui_only: false,
        tui_combo_width: None,
    }
}

fn path_field(
    key: &'static str,
    label: &'static str,
    help: &'static str,
    flag: &'static str,
    required: bool,
    group: Option<&'static str>,
) -> (r: FieldSpec)
    ensures
        r == path_field_spec(key, label, help, flag, required, group),
{
    FieldSpec {
        key,
        label,
        help,
        kind: FieldKind::Path,
        binding: ArgBinding::FlagValue(flag),
        required,
        default_value: None,
        tui_default_value: None,
        group,
        invert_switch: false,
        tui_only: false,
        tui_combo_width: None,
    }
}

fn switch_field(
    key: &'static str,
    label: &'static str,
    help: &'static str,
    flag: &'static str,
    default_value: Option<&'static str>,
    tui_default_value: Option<&'static str>,
    group: Option<&'static str>,
) -> (r: FieldSpec)
    ensures
        r == switch_field_spec(key, label, help, flag, default_value, tui_default_value, group),
{
    FieldSpec {
        key,
        label,
        help,
        kind: FieldKind::Boolean,
        binding: ArgBinding::Switch(flag),
        required: false,
        default_value,
        tui_default_value,
        group,
        invert_switch: false,
        tui_only: false,
        tui_combo_width: None,
    }
}

fn defs_path_field(
    key: &'static str,
    flag: &'static str,
    label_key: &'static str,
    help_key: &'static str,
    required: bool,
) -> (r: FieldSpec)
    ensures
        r == defs_path(key, flag, label_key, help_key, required),
{
    path_field(key, s(label_key), s(help_key), flag, required, Some(s("group.paths")))
}

fn package_command(description: &'static str) -> (r: CommandUi)
    ensures
        r.description == description,
        r.fields@ == package_fields(),
        r.quick_run,
        r.supports_cancel,
{
    let fields = vec![
        combo_field(
            "configuration",
            s("cmd.package.field.configuration.label"),
            s("cmd.package.field.configuration.help"),
            "--configuration",
            &["Debug", "Release"],
            Some("Release"),
            None,
            Some(s("group.package")),
        ),
        text_field(
            "version",
            s("cmd.package.field.version.label"),
            s("cmd.package.field.version.help"),
            ArgBinding::FlagValue("--version"),
            false,
            None,
            Some(s("group.package")),
        ),
    ];
    assert(fields@ =~= package_fields());
    CommandUi { description, fields, quick_run: true, supports_cancel: true }
}

fn build_run_ui() -> (r: CommandUi)
    ensures
        r.description == t("cmd.build.run.description"),
        r.fields@ == build_run_fields(),
        r.quick_run,
        r.supports_cancel,
{
    let workflow = s("cmd.build.run.group.workflow");
    let advanced = s("cmd.build.run.group.advanced");
    let fields = vec![
        preset_field(
            "preset",
            s("cmd.build.run.field.preset.label"),
            s("cmd.build.run.field.preset.help"),
            &[
                PresetOption { id: "local-integration", label: "Local integration" },
                PresetOption { id: "production-parity", label: "Production parity" },
                PresetOption { id: "custom", label: "Custom" },
            ],
            Some(s("cmd.build.run.group.preset")),
        ),
        include_step(
            "step_config",
            s("cmd.build.run.field.step_config.label"),
            s("cmd.build.run.field.step_config.help"),
            "--skip-config",
            Some("true"),
            Some("true"),
            Some(workflow),
        ),
        include_step(
            "step_defs",
            s("cmd.build.run.field.step_defs.label"),
            s("cmd.build.run.field.step_defs.help"),
            "--skip-defs",
            Some("true"),
            Some("true"),
            Some(workflow),
        ),
        include_step(
            "step_quality",
            s("cmd.build.run.field.step_quality.label"),
            s("cmd.build.run.field.step_quality.help"),
            "--skip-quality",
            Some("true"),
            Some("true"),
            Some(workflow),
        ),
        include_step(
            "step_docs",
            s("cmd.build.run.field.step_docs.label"),
            s("cmd.build.run.field.step_docs.help"),
            "--skip-docs",
            Some("true"),
            Some("false"),
            Some(workflow),
        ),
        include_step(
            "step_dotnet",
            s("cmd.build.run.field.step_dotnet.label"),
            s("cmd.build.run.field.step_dotnet.help"),
            "--skip-dotnet",
            Some("true"),
            Some("true"),
            Some(workflow),
        ),
        include_step(
            "step_native",
            s("cmd.build.run.field.step_native.label"),
            s("cmd.build.run.field.step_native.help"),
            "--skip-native",
            Some("true"),
            Some("true"),
            Some(workflow),
        ),
        include_step(
            "step_verify",
            s("cmd.build.run.field.step_verify.label"),
            s("cmd.build.run.field.step_verify.help"),
            "--skip-verify",
            Some("true"),
            Some("false"),
            Some(workflow),
        ),
        combo_field(
            "native_scope",
            s("cmd.build.run.field.native_scope.label"),
            s("cmd.build.run.field.native_scope.help"),
            "--cross-native",
            &["Host only", "Host + cross-native"],
            Some("Host only"),
            Some("Host only"),
            Some(advanced),
        ),
        combo_field(
            "configuration",
            s("cmd.build.run.field.configuration.label"),
            s("cmd.build.run.field.configuration.help"),
            "--configuration",
            &["Debug", "Release"],
            Some("Release"),
            Some("Debug"),
            Some(advanced),
        ),
    ];
    assert(fields@ =~= build_run_fields());
    CommandUi { description: s("cmd.build.run.description"), fields, quick_run: true, supports_cancel: true }
}

fn release_run_ui() -> (r: CommandUi)
    ensures
        r.description == t("cmd.release.run.description"),
        r.fields@ == release_run_fields(),
        !r.quick_run,
        r.supports_cancel,
{
    let steps = s("cmd.release.run.group.steps");
    let advanced = s("cmd.release.run.group.advanced");
    let fields = vec![
        preset_field(
            "preset",
            s("cmd.release.run.field.preset.label"),
            s("cmd.release.run.field.preset.help"),
            &[PresetOption { id: "dry-run", label: "Dry run" }, PresetOption { id: "full-release", label: "Full release" }],
            Some(s("cmd.release.run.group.preset")),
        ),
        include_step(
            "step_cargo",
            s("cmd.release.run.field.step_cargo.label"),
            s("cmd.release.run.field.step_cargo.help"),
            "--skip-cargo",
            Some("true"),
            Some("false"),
            Some(steps),
        ),
        include_step(
            "step_nuget",
            s("cmd.release.run.field.step_nuget.label"),
            s("cmd.release.run.field.step_nuget.help"),
            "--skip-nuget",
            Some("true"),
            Some("false"),
            Some(steps),
        ),
        combo_field(
            "configuration",
            s("cmd.release.run.field.configuration.label"),
            s("cmd.release.run.field.configuration.help"),
            "--configuration",
            &["Debug", "Release"],
            Some("Release"),
            None,
            Some(advanced),
        ),
        text_field(
            "source",
            s("cmd.release.run.field.source.label"),
            s("cmd.release.run.field.source.help"),
            ArgBinding::FlagValue("--source"),
            false,
            None,
            Some(advanced),
        ),
        switch_field(
            "dry_run",
            s("cmd.release.run.field.dry_run.label"),
            s("cmd.release.run.field.dry_run.help"),
            "--dry-run",
            Some("false"),
            Some("true"),
            Some(advanced),
        ),
    ];
    assert(fields@ =~= release_run_fields());
    CommandUi { description: s("cmd.release.run.description"), fields, quick_run: false, supports_cancel: true }
}

fn publish_ui() -> (r: CommandUi)
    ensures
        r.description == t("cmd.package.publish.description"),
        r.fields@ == publish_fields(),
        !r.quick_run,
        r.supports_cancel,
{
    let fields = vec![
        radio_field(
            "mode",
            s("cmd.package.publish.field.mode.label"),
            s("cmd.package.publish.field.mode.help"),
            &["dry-run", "execute"],
            Some("dry-run"),
            None,
            Some(s("group.mode")),
        ),
        combo_field(
            "configuration",
            s("cmd.package.publish.field.configuration.label"),
            s("cmd.package.publish.field.configuration.help"),
            "--configuration",
            &["Debug", "Release"],
            Some("Release"),
            None,
            Some(s("group.package")),
        ),
        text_field(
            "version",
            s("cmd.package.publish.field.version.label"),
            s("cmd.package.publish.field.version.help"),
            ArgBinding::FlagValue("--version"),
            false,
            None,
            Some(s("group.package")),
        ),
        text_field(
            "source",
            s("cmd.package.publish.field.source.label"),
            s("cmd.package.publish.field.source.help"),
            ArgBinding::FlagValue("--source"),
            false,
            None,
            Some(s("group.package")),
        ),
    ];
    assert(fields@ =~= publish_fields());
    CommandUi { description: s("cmd.package.publish.description"), fields, quick_run: false, supports_cancel: true }
}

fn plain_ui(description: &'static str, fields: Vec<FieldSpec>, quick_run: bool) -> (r: CommandUi)
    ensures
        r.description == description,
        r.fields == fields,
        r.quick_run == quick_run,
        !r.supports_cancel,
{
    CommandUi { description, fields, quick_run, supports_cancel: false }
}

/// The option schema of command `id` (see `spec_ui`).
#[verifier::rlimit(50)]
pub fn ui_for_command(id: &'static str, summary: &'static str, args_summary: &'static str) -> (r: CommandUi)
    ensures
        is_ui(r, id@, summary),
{
    if str_eq(id, "config.show") {
        let r = plain_ui(s("cmd.config.show.description"), Vec::new(), true);
        assert(r.fields@ =~= Seq::<FieldSpec>::empty());
        r
    } else if str_eq(id, "config.env.init") {
        let r = plain_ui(s("cmd.config.env.init.description"), Vec::new(), true);
        assert(r.fields@ =~= Seq::<FieldSpec>::empty());
        r
    } else if str_eq(id, "version.set") {
        let fields = vec![
            text_field(
                "version",
                s("cmd.version.set.field.version.label"),
                s("cmd.version.set.field.version.help"),
                ArgBinding::Positional,
                true,
                None,
                Some(s("group.general")),
            ),
        ];
        let r = plain_ui(s("cmd.version.set.description"), fields, true);
        assert(r.fields@ =~= spec_ui(id@, summary).1);
        r
    } else if str_eq(id, "version.bump") {
        let fields = vec![
            combo_field(
                "part",
                s("cmd.version.bump.field.part.label"),
                s("cmd.version.bump.field.part.help"),
                "--part",
                &["major", "minor", "patch"],
                Some("minor"),
                None,
                Some(s("group.general")),
            ),
        ];
        let r = plain_ui(s("cmd.version.bump.description"), fields, true);
        assert(r.fields@ =~= spec_ui(id@, summary).1);
        r
    } else if str_eq(id, "defs.pack") {
        let fields = vec![defs_path_field("output", "--output", "cmd.defs.pack.field.output.label", "cmd.defs.pack.field.output.help", false)];
        let r = plain_ui(s("cmd.defs.pack.description"), fields, false);
        assert(r.fields@ =~= spec_ui(id@, summary).1);
        r
    } else if str_eq(id, "defs.build-trid-xml") {
        let fields = vec![
            defs_path_field("input", "--input", "cmd.defs.build-trid-xml.field.input.label", "cmd.defs.build-trid-xml.field.input.help", false),
            defs_path_field("output", "--output", "cmd.defs.build-trid-xml.field.output.label", "cmd.defs.build-trid-xml.field.output.help", false),
        ];
        let r = plain_ui(s("cmd.defs.build-trid-xml.description"), fields, false);
        assert(r.fields@ =~= spec_ui(id@, summary).1);
        r
    } else if str_eq(id, "defs.inspect") {
        let fields = vec![defs_path_field("input", "--input", "cmd.defs.inspect.field.input.label", "cmd.defs.inspect.field.input.help", false)];
        let r = plain_ui(s("cmd.defs.inspect.description"), fields, false);
        assert(r.fields@ =~= spec_ui(id@, summary).1);
        r
    } else if str_eq(id, "defs.inspect-trid-xml") {
        let fields = vec![defs_path_field("input", "--input", "cmd.defs.inspect-trid-xml.field.input.label", "cmd.defs.inspect-trid-xml.field.input.help", false)];
        let r = plain_ui(s("cmd.defs.inspect-trid-xml.description"), fields, false);
        assert(r.fields@ =~= spec_ui(id@, summary).1);
        r
    } else if str_eq(id, "defs.normalize") {
        let fields = vec![
            defs_path_field("input", "--input", "cmd.defs.normalize.field.input.label", "cmd.defs.normalize.field.input.help", false),
            defs_path_field("output", "--output", "cmd.defs.normalize.field.output.label", "cmd.defs.normalize.field.output.help", false),
        ];
        let r = plain_ui(s("cmd.defs.normalize.description"), fields, false);
        assert(r.fields@ =~= spec_ui(id@, summary).1);
        r
    } else if str_eq(id, "defs.verify") {
        let fields = vec![
            defs_path_field("left", "--left", "cmd.defs.verify.field.left.label", "cmd.defs.verify.field.left.help", true),
            defs_path_field("right", "--right", "cmd.defs.verify.field.right.label", "cmd.defs.verify.field.right.help", true),
        ];
        let r = plain_ui(s("cmd.defs.verify.description"), fields, false);
        assert(r.fields@ =~= spec_ui(id@, summary).1);
        r
    } else if str_eq(id, "defs.sync-embedded") {
        let fields = vec![
            defs_path_field("input", "--input", "cmd.defs.sync-embedded.field.input.label", "cmd.defs.sync-embedded.field.input.help", false),
            defs_path_field("output", "--output", "cmd.defs.sync-embedded.field.output.label", "cmd.defs.sync-embedded.field.output.help", false),
            switch_field(
                "check",
                s("cmd.defs.sync-embedded.field.check.label"),
                s("cmd.defs.sync-embedded.field.check.help"),
                "--check",
                Some("false"),
                None,
                Some(s("group.mode")),
            ),
        ];
        let r = plain_ui(s("cmd.defs.sync-embedded.description"), fields, false);
        assert(r.fields@ =~= spec_ui(id@, summary).1);
        r
    } else if str_eq(id, "verify.package") {
        package_command(s("cmd.verify.package.description"))
    } else if str_eq(id, "package.pack") {
        package_command(s("cmd.package.pack.description"))
    } else if str_eq(id, "package.publish") {
        publish_ui()
    } else if str_eq(id, "build.run") {
        build_run_ui()
    } else if str_eq(id, "release.run") {
        release_run_ui()
    } else {
        let r = plain_ui(summary, Vec::new(), false);
        assert(r.fields@ =~= Seq::<FieldSpec>::empty());
        r
    }
}

} // verus!
