use std::sync::Arc;

use drot::command::{ArgBinding, CommandHandler, CommandRegistry, CommandSpec, CommandUi, FieldKind, FieldSpec, SectionSpec};
use drot::context::{CommandResult, ToolContext};
use drot::forms::FormValue;
use drot::interactive::{
    ActiveRun, AppState, DiagnosticLine, DiagnosticSeverity, ProgressInfo, RunPhase, StatusTone,
};
use drot::tui::bios_combo::ComboPart;
use drot::tui::bios_textbox::Area;
use drot::tui::embedded::EmbeddedFocus;
use drot::tui::panels::{
    FieldWidget, OptionRow, OptionWidgetValue, OptionsBody, ValidationTone, apply_option_widgets_to_form,
    form_field_widget, format_status_line, info_tab_lines, options_tab_view, run_button, status_tone,
    sync_option_widgets_from_form, system_tab_lines, trouble_tab_lines,
};

struct Noop;

impl CommandHandler for Noop {
    fn run(&self, _: &ToolContext, _: &[String]) -> Result<CommandResult, String> {
        Ok(CommandResult::success())
    }
}

fn field(key: &'static str, label: &'static str, kind: FieldKind, group: Option<&'static str>) -> FieldSpec {
    FieldSpec {
        key,
        label,
        help: "",
        kind,
        binding: ArgBinding::Switch("--x"),
        required: false,
        default_value: None,
        tui_default_value: None,
        group,
        invert_switch: false,
        tui_only: false,
        tui_combo_width: None,
    }
}

fn pack_command(fields: Vec<FieldSpec>) -> CommandSpec {
    CommandSpec {
        id: "package.pack",
        path: &["package", "pack"],
        summary: "Pack the package",
        args_summary: "[--configuration <c>]",
        section: "package",
        ui: CommandUi { description: "Pack the package\n\nBuilds the NuGet package.", fields, quick_run: true, supports_cancel: true },
        handler: Some(Arc::new(Noop)),
        is_disabled: false,
        disabled_reason: None,
    }
}

fn fields() -> Vec<FieldSpec> {
    vec![
        field("check", "Check", FieldKind::Boolean, Some("Steps")),
        field("docs", "Docs", FieldKind::Boolean, Some("Steps")),
        field("version", "Version", FieldKind::Text, None),
        field("configuration", "Configuration", FieldKind::Combo(&["Debug", "Release"]), Some("Build")),
    ]
}

fn registry() -> CommandRegistry {
    let mut registry = CommandRegistry::new();
    registry.add_section(SectionSpec { name: "package", prompt: "pkg> ", summary: "Package" });
    registry.add_command(pack_command(fields()));
    registry
}

fn progress(phase: RunPhase, step: &str, activity: &str, analyzing: &str, secs: Option<u64>) -> ProgressInfo {
    ProgressInfo {
        phase,
        percent: 0,
        step_label: step.to_owned(),
        analyzing_message: analyzing.to_owned(),
        activity_label: activity.to_owned(),
        elapsed_secs: secs,
    }
}

#[test]
fn status_line_prefers_progress_text() {
    let mut state = AppState::new();
    assert_eq!(format_status_line(&state), "Ready.");
    assert_eq!(status_tone(&state), ValidationTone::Muted);
    state.progress = Some(progress(RunPhase::Analyzing, "step", "", "Analyzing…", None));
    assert_eq!(format_status_line(&state), "Analyzing…");
    state.progress = Some(progress(RunPhase::Running, "Packing……", "", "", Some(12)));
    assert_eq!(format_status_line(&state), "Packing… (12s)");
    state.progress = Some(progress(RunPhase::Running, "Packing", "", "", None));
    assert_eq!(format_status_line(&state), "Packing");
    state.progress = Some(progress(RunPhase::Running, "", "Waiting", "", Some(3)));
    assert_eq!(format_status_line(&state), "Waiting… (3s)");
    state.progress = Some(progress(RunPhase::Running, "", "Waiting", "", None));
    assert_eq!(format_status_line(&state), "Waiting…");
    state.progress = Some(progress(RunPhase::Running, "", "", "", None));
    assert_eq!(format_status_line(&state), "Ready.");
    state.status_tone = StatusTone::Failed;
    assert_eq!(status_tone(&state), ValidationTone::Error);
    state.status_tone = StatusTone::Success;
    assert_eq!(status_tone(&state), ValidationTone::Success);
}

#[test]
fn run_button_switches_to_cancel() {
    let mut state = AppState::new();
    let slot = Area { x: 0, y: 5, width: 30, height: 1 };
    assert_eq!(run_button(&state, slot), ("Run", true, Area { x: 10, y: 5, width: 10, height: 1 }));
    state.active_run = Some(ActiveRun { label: "x".to_owned(), cancelable: false });
    assert_eq!(run_button(&state, slot), ("Cancel", false, Area { x: 10, y: 5, width: 10, height: 1 }));
    let narrow = Area { x: 2, y: 0, width: 6, height: 1 };
    assert_eq!(run_button(&state, narrow).2, Area { x: 2, y: 0, width: 6, height: 1 });
}

#[test]
fn info_tab_describes_the_command() {
    let lines = info_tab_lines(&pack_command(Vec::new()), 80);
    assert_eq!(
        lines,
        vec![
            "package pack",
            "",
            "Pack the package",
            "",
            "Pack the package",
            "",
            "Builds the NuGet package.",
            "",
            "Syntax",
            "  package pack [--configuration <c>]",
        ]
    );
    let mut disabled = pack_command(fields());
    disabled.handler = None;
    disabled.ui.description = "Pack the package";
    let lines = info_tab_lines(&disabled, 80);
    assert_eq!(lines[4], "Disabled — not implemented by this extension");
    assert_eq!(lines.len(), 11);
}

#[test]
fn trouble_and_system_tabs() {
    let lines = vec![
        DiagnosticLine { severity: DiagnosticSeverity::Warn, text: "careful".to_owned(), continuation: false },
        DiagnosticLine { severity: DiagnosticSeverity::Error, text: "boom".to_owned(), continuation: false },
        DiagnosticLine { severity: DiagnosticSeverity::Error, text: "detail".to_owned(), continuation: true },
    ];
    assert_eq!(trouble_tab_lines(&lines, 40), vec!["[WARN] careful", "[ERR ] boom", "      detail"]);
    assert_eq!(system_tab_lines(&None, 80), vec!["Open this tab to load configuration."]);
    assert_eq!(system_tab_lines(&Some("a\n\nb c".to_owned()), 80), vec!["a", "", "b c"]);
}

#[test]
fn options_tab_lays_out_groups_and_fields() {
    let registry = registry();
    let area = Area { x: 0, y: 0, width: 40, height: 10 };
    let mut state = AppState::new();
    let view = options_tab_view(&state, &registry, area);
    assert_eq!(view.body, OptionsBody::Message("Select a task to edit options."));
    assert!(!view.reset_enabled);
    assert_eq!(view.reset_area, Area { x: 30, y: 9, width: 10, height: 1 });

    state.selected_command_id = Some("package.pack");
    let view = options_tab_view(&state, &registry, area);
    assert_eq!(view.body, OptionsBody::Message("Loading form…"));
    assert!(view.reset_enabled);

    state.select_command(&registry, "package.pack", None);
    let view = options_tab_view(&state, &registry, area);
    let row = |y: u16, index: usize| OptionRow::Field { area: Area { x: 2, y, width: 38, height: 1 }, index };
    let title = |y: u16, title: &'static str| OptionRow::GroupTitle { area: Area { x: 0, y, width: 40, height: 1 }, title };
    assert_eq!(
        view.body,
        OptionsBody::Rows(vec![title(0, "Steps"), row(1, 0), row(2, 1), row(4, 2), title(5, "Build"), row(6, 3)])
    );

    let short = options_tab_view(&state, &registry, Area { x: 0, y: 0, width: 40, height: 4 });
    assert_eq!(short.body, OptionsBody::Rows(vec![title(0, "Steps"), row(1, 0), row(2, 1)]));
}

#[test]
fn field_widgets_follow_kind_and_focus() {
    let fs = fields();
    assert_eq!(
        form_field_widget("package.pack", 0, &fs[0], &FormValue::Boolean(true), true, true, None, "", 0),
        FieldWidget::CheckBox { label: "Check", checked: true, focused: true }
    );
    assert_eq!(
        form_field_widget("package.pack", 3, &fs[3], &FormValue::Select(1), true, false, Some(EmbeddedFocus::Combo { field_index: 3, part: ComboPart::Left }), "", 0),
        FieldWidget::Combo { value: "Release", selected: false, embedded: Some(ComboPart::Left), marquee_key: "package.pack:3".to_owned() }
    );
    assert_eq!(
        form_field_widget("package.pack", 2, &fs[2], &FormValue::Text("1.0".to_owned()), true, true, None, "", 0),
        FieldWidget::TextBox { label: "Version", text: "1.0".to_owned(), selected: true, editing: false, cursor_pos: 3 }
    );
    assert_eq!(
        form_field_widget("package.pack", 2, &fs[2], &FormValue::Text("1.0".to_owned()), true, true, Some(EmbeddedFocus::Text { field_index: 2 }), "1.05", 2),
        FieldWidget::TextBox { label: "Version", text: "1.05".to_owned(), selected: true, editing: true, cursor_pos: 2 }
    );
    assert_eq!(
        form_field_widget("package.pack", 2, &fs[2], &FormValue::Boolean(false), false, false, None, "", 0),
        FieldWidget::Unsupported { text: "  Version: (unsupported)".to_owned() }
    );
    let radio = field("scope", "Scope", FieldKind::Radio(&["Host only", "All"]), None);
    match form_field_widget("p", 7, &radio, &FormValue::Select(5), false, false, None, "", 0) {
        FieldWidget::Combo { value, marquee_key, .. } => {
            assert_eq!(value, "");
            assert_eq!(marquee_key, "p:7");
        }
        other => panic!("unexpected {other:?}"),
    }
}

#[test]
fn option_widgets_round_trip_through_the_form() {
    let registry = registry();
    let mut state = AppState::new();
    assert_eq!(sync_option_widgets_from_form(&state, &registry, 0), None);
    state.select_command(&registry, "package.pack", None);
    assert_eq!(sync_option_widgets_from_form(&state, &registry, 0), Some(OptionWidgetValue::Checked(false)));
    assert_eq!(sync_option_widgets_from_form(&state, &registry, 2), Some(OptionWidgetValue::Text(String::new())));
    assert_eq!(sync_option_widgets_from_form(&state, &registry, 3), None);
    assert_eq!(sync_option_widgets_from_form(&state, &registry, 9), None);

    apply_option_widgets_to_form(&mut state, &registry, 2, "2.0.0", true);
    apply_option_widgets_to_form(&mut state, &registry, 1, "ignored", true);
    apply_option_widgets_to_form(&mut state, &registry, 3, "ignored", true);
    assert_eq!(sync_option_widgets_from_form(&state, &registry, 2), Some(OptionWidgetValue::Text("2.0.0".to_owned())));
    assert_eq!(sync_option_widgets_from_form(&state, &registry, 1), Some(OptionWidgetValue::Checked(true)));
    assert_eq!(state.forms[0].values[3], FormValue::Select(0));
}
