use drot::command::{ArgBinding, CommandSpec, CommandUi, FieldKind, FieldSpec, PresetOption};
use drot::forms::{CommandForm, FormValue, option_count, preset_id, preset_label, select_options};

fn command(fields: Vec<FieldSpec>) -> CommandSpec {
    CommandSpec {
        id: "verify.package",
        path: &["verify", "package"],
        summary: "Verify package",
        args_summary: "",
        section: "verify",
        ui: CommandUi { description: "Verify package", fields, quick_run: true, supports_cancel: true },
        handler: None,
        is_disabled: false,
        disabled_reason: None,
    }
}

fn field(key: &'static str, label: &'static str, kind: FieldKind, binding: ArgBinding) -> FieldSpec {
    FieldSpec {
        key,
        label,
        help: "",
        kind,
        binding,
        required: false,
        default_value: None,
        tui_default_value: None,
        group: None,
        invert_switch: false,
        tui_only: false,
        tui_combo_width: None,
    }
}

#[test]
fn build_args_serializes_flag_and_positional_fields() {
    let command = command(vec![
        FieldSpec {
            key: "version",
            label: "Version",
            help: "",
            kind: FieldKind::Text,
            binding: ArgBinding::Positional,
            required: true,
            default_value: Some("0.4.0"),
            tui_default_value: None,
            group: None,
            invert_switch: false,
            tui_only: false,
            tui_combo_width: None,
        },
        FieldSpec {
            key: "configuration",
            label: "Configuration",
            help: "",
            kind: FieldKind::Combo(&["Debug", "Release"]),
            binding: ArgBinding::FlagValue("--configuration"),
            required: true,
            default_value: Some("Release"),
            tui_default_value: None,
            group: None,
            invert_switch: false,
            tui_only: false,
            tui_combo_width: None,
        },
        FieldSpec {
            key: "check",
            label: "Check",
            help: "",
            kind: FieldKind::Boolean,
            binding: ArgBinding::Switch("--check"),
            required: false,
            default_value: Some("true"),
            tui_default_value: None,
            group: None,
            invert_switch: false,
            tui_only: false,
            tui_combo_width: None,
        },
    ]);

    let form = CommandForm::from_command(&command);
    let args = form.build_args(&command).unwrap();
    assert_eq!(
        args,
        vec!["0.4.0".to_owned(), "--configuration".to_owned(), "Release".to_owned(), "--check".to_owned()]
    );
}

fn step_verify() -> FieldSpec {
    FieldSpec {
        key: "step_verify",
        label: "Verify package",
        help: "",
        kind: FieldKind::Boolean,
        binding: ArgBinding::Switch("--skip-verify"),
        required: false,
        default_value: Some("true"),
        tui_default_value: Some("false"),
        group: None,
        invert_switch: true,
        tui_only: false,
        tui_combo_width: None,
    }
}

#[test]
fn invert_switch_emits_skip_when_step_unchecked() {
    let command = command(vec![step_verify()]);

    let tui_form = CommandForm::from_command_tui(&command);
    let args = tui_form.build_args(&command).unwrap();
    assert!(args.contains(&"--skip-verify".to_owned()));

    let cli_form = CommandForm::from_command(&command);
    let args = cli_form.build_args(&command).unwrap();
    assert!(!args.contains(&"--skip-verify".to_owned()));
}

#[test]
fn tui_default_value_initializes_form() {
    let command = command(vec![step_verify()]);
    let form = CommandForm::from_command_tui(&command);
    assert_eq!(form.boolean_at(&command, "step_verify"), Some(false));
}

#[test]
fn build_args_requires_missing_required_values() {
    let command = command(vec![FieldSpec {
        key: "version",
        label: "Version",
        help: "",
        kind: FieldKind::Text,
        binding: ArgBinding::Positional,
        required: true,
        default_value: None,
        tui_default_value: None,
        group: None,
        invert_switch: false,
        tui_only: false,
        tui_combo_width: None,
    }]);

    let form = CommandForm::from_command(&command);
    let error = form.build_args(&command).unwrap_err().to_string();
    assert!(error.contains("Version is required"));
}

#[test]
fn tui_only_fields_contribute_no_words() {
    let mut preset = field("preset", "Preset", FieldKind::Preset(&[PresetOption { id: "a", label: "A" }]), ArgBinding::Switch("__preset"));
    preset.tui_only = true;
    let command = command(vec![preset]);
    let form = CommandForm::from_command_tui(&command);
    assert_eq!(form.build_args(&command).unwrap(), Vec::<String>::new());
}

#[test]
fn mode_radio_becomes_double_dash_word() {
    let mut mode = field("mode", "Mode", FieldKind::Radio(&["dry-run", "execute"]), ArgBinding::FlagValue("__mode"));
    mode.default_value = Some("execute");
    let command = command(vec![mode]);
    let form = CommandForm::from_command(&command);
    assert_eq!(form.build_args(&command).unwrap(), vec!["--execute".to_owned()]);
}

#[test]
fn text_values_are_trimmed_and_empty_optional_text_is_left_out() {
    let command = command(vec![
        field("source", "Source", FieldKind::Text, ArgBinding::FlagValue("--source")),
        field("name", "Name", FieldKind::Text, ArgBinding::Positional),
    ]);
    let mut form = CommandForm::from_command(&command);
    form.values[0] = FormValue::Text("  https://x  ".to_owned());
    assert_eq!(form.build_args(&command).unwrap(), vec!["--source".to_owned(), "https://x".to_owned()]);
}

#[test]
fn switch_select_emits_flag_past_first_option() {
    let command = command(vec![field(
        "native_scope",
        "Scope",
        FieldKind::Combo(&["Host only", "Host + cross-native"]),
        ArgBinding::Switch("--cross-native"),
    )]);
    let mut form = CommandForm::from_command(&command);
    assert_eq!(form.build_args(&command).unwrap(), Vec::<String>::new());
    form.set_select_by_value(&command, "native_scope", "Host + cross-native");
    assert_eq!(form.build_args(&command).unwrap(), vec!["--cross-native".to_owned()]);
}

#[test]
fn editing_the_focused_field() {
    let command = command(vec![
        field("name", "Name", FieldKind::Text, ArgBinding::Positional),
        field("flag", "Flag", FieldKind::Boolean, ArgBinding::Switch("--flag")),
        field("part", "Part", FieldKind::Combo(&["major", "minor", "patch"]), ArgBinding::FlagValue("--part")),
    ]);
    let mut form = CommandForm::from_command(&command);
    form.insert_char('a');
    form.insert_char('b');
    form.backspace();
    assert_eq!(form.display_value(&command, 0), "a");
    form.move_next(3);
    form.toggle_bool();
    assert_eq!(form.display_value(&command, 1), "yes");
    form.move_next(3);
    form.cycle_previous_option(&command);
    assert_eq!(form.display_value(&command, 2), "patch");
    form.cycle_next_option(&command);
    assert_eq!(form.display_value(&command, 2), "major");
    form.move_next(3);
    assert_eq!(form.selected_field, 0);
    form.move_previous(3);
    assert_eq!(form.selected_field, 2);
}

#[test]
fn choice_helpers() {
    let presets: &'static [PresetOption] = &[PresetOption { id: "dry-run", label: "Dry run" }];
    let kind = FieldKind::Preset(presets);
    assert_eq!(option_count(&kind), 1);
    assert_eq!(preset_id(&kind, 0), Some("dry-run"));
    assert_eq!(preset_id(&kind, 1), None);
    assert_eq!(preset_label(&kind, 0), "Dry run");
    assert_eq!(preset_label(&kind, 5), "");
    let combo = FieldKind::Combo(&["Debug", "Release"]);
    assert_eq!(select_options(&combo), &["Debug", "Release"]);
    assert_eq!(preset_label(&combo, 1), "Release");
    assert_eq!(option_count(&FieldKind::Text), 0);
}

#[test]
fn set_radio_and_select_index() {
    let command = command(vec![field("mode", "Mode", FieldKind::Radio(&["dry-run", "execute"]), ArgBinding::FlagValue("__mode"))]);
    let mut form = CommandForm::from_command(&command);
    form.set_radio_index(&command, 0, 1);
    assert_eq!(form.select_label_at(&command, "mode"), Some("execute"));
    form.set_select_index(&command, "mode", 0);
    assert_eq!(form.select_label_at(&command, "mode"), Some("dry-run"));
    assert_eq!(form.field_index(&command, "mode"), Some(0));
    assert_eq!(form.field_index(&command, "nope"), None);
}

#[test]
fn tui_only_preset_never_reaches_the_arguments() {
    const PRESETS: &[PresetOption] = &[
        PresetOption { id: "local", label: "Local integration" },
        PresetOption { id: "prod", label: "Production parity" },
    ];
    let mut preset = field("preset", "Preset", FieldKind::Preset(PRESETS), ArgBinding::FlagValue("--preset"));
    preset.tui_only = true;
    let command = command(vec![preset, step_verify()]);

    let mut form = CommandForm::from_command(&command);
    let before = form.build_args(&command).unwrap();
    form.set_select_index(&command, "preset", 1);
    assert_eq!(form.values[0], FormValue::Select(1));
    assert_eq!(form.build_args(&command).unwrap(), before);
    assert!(before.is_empty());
}

#[test]
fn stepping_choices_round_trips() {
    let command = command(vec![field(
        "part",
        "Part",
        FieldKind::Combo(&["major", "minor", "patch"]),
        ArgBinding::FlagValue("--part"),
    )]);
    let mut form = CommandForm::from_command(&command);
    form.set_select_by_value(&command, "part", "minor");
    assert_eq!(form.select_label_at(&command, "part"), Some("minor"));
    let start = form.values.clone();

    form.cycle_next_option(&command);
    form.cycle_previous_option(&command);
    assert_eq!(form.values, start);
    form.cycle_previous_option(&command);
    form.cycle_next_option(&command);
    assert_eq!(form.values, start);

    for _ in 0..3 {
        form.cycle_next_option(&command);
    }
    assert_eq!(form.values, start);
    assert_eq!(form.select_label_at(&command, "part"), Some("minor"));
}

#[test]
fn cycling_the_focused_field_wraps_both_ways() {
    let fields = vec![
        field("a", "A", FieldKind::Text, ArgBinding::Positional),
        field("b", "B", FieldKind::Text, ArgBinding::Positional),
        field("c", "C", FieldKind::Text, ArgBinding::Positional),
    ];
    let command = command(fields);
    let mut focus: usize = 2;
    drot::tui::screens::cycle_form_field(&command, &mut focus, 1);
    assert_eq!(focus, 0);
    drot::tui::screens::cycle_form_field(&command, &mut focus, -1);
    assert_eq!(focus, 2);
    drot::tui::screens::cycle_form_field(&command, &mut focus, -7);
    assert_eq!(focus, 1);
    let mut far: usize = usize::MAX;
    drot::tui::screens::cycle_form_field(&command, &mut far, 1);
    assert_eq!(far, ((usize::MAX as u128 + 1) % 3) as usize);
    let empty = command_without_fields();
    let mut kept: usize = 5;
    drot::tui::screens::cycle_form_field(&empty, &mut kept, 3);
    assert_eq!(kept, 5);
}

fn command_without_fields() -> CommandSpec {
    command(Vec::new())
}

#[test]
fn build_args_names_the_first_required_field_left_empty() {
    let mut version = field("version", "Version", FieldKind::Text, ArgBinding::Positional);
    version.required = true;
    let mut output = field("output", "Output", FieldKind::Text, ArgBinding::FlagValue("--output"));
    output.required = true;
    let optional = field("note", "Note", FieldKind::Text, ArgBinding::FlagValue("--note"));
    let command = command(vec![optional, version, output]);
    let form = CommandForm::from_command(&command);
    assert_eq!(form.build_args(&command).unwrap_err(), "Version is required");
    let relaxed = command_without_fields();
    assert_eq!(CommandForm::from_command(&relaxed).build_args(&relaxed).unwrap(), Vec::<String>::new());
}
