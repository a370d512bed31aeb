use std::sync::Arc;

use drot::command::{CommandHandler, CommandRegistry, CommandSpec, CommandUi, SectionSpec};
use drot::context::{CommandResult, RunMode, ToolContext};
use drot::interactive::{
    ActiveRun, AppState, DiagnosticSeverity, MainTab, OutputEvent, OutputStream, ProgressInfo, RunCompletion, RunPhase,
    StatusTone, is_subprocess_progress_line, subprocess_line_is_diagnostic,
};

struct Noop;

impl CommandHandler for Noop {
    fn run(&self, _: &ToolContext, _: &[String]) -> Result<CommandResult, String> {
        Ok(CommandResult::with_message("done".to_owned()))
    }
}

fn progress(phase: RunPhase, percent: u8, step_label: &str) -> ProgressInfo {
    ProgressInfo {
        phase,
        percent,
        step_label: step_label.to_owned(),
        analyzing_message: String::new(),
        activity_label: String::new(),
        elapsed_secs: None,
    }
}

fn event(stream: OutputStream, line: &str) -> OutputEvent {
    OutputEvent { stream, line: line.to_owned() }
}

fn registry_with_show() -> CommandRegistry {
    let mut registry = CommandRegistry::new();
    registry.add_section(SectionSpec { name: "config", prompt: "cfg> ", summary: "Config" });
    registry.add_command(CommandSpec {
        id: "config.show",
        path: &["config", "show"],
        summary: "Show",
        args_summary: "",
        section: "config",
        ui: CommandUi::empty("Show"),
        handler: Some(Arc::new(Noop)),
        is_disabled: false,
        disabled_reason: None,
    });
    registry
}

#[test]
fn subprocess_output_buffered_until_command_failure() {
    let mut state = AppState::new();
    state.absorb_output_event(event(OutputStream::Subprocess, "Finished `dev` profile"));
    assert!(state.troubleshooting_lines.is_empty());

    state.absorb_output_event(event(OutputStream::Warn, "verification mismatch"));
    assert_eq!(state.troubleshooting_lines.len(), 1);

    state.flush_subprocess_output_to_troubleshooting();
    assert_eq!(state.troubleshooting_lines.len(), 1);
}

#[test]
fn command_failure_headline_groups_subprocess_details() {
    let mut state = AppState::new();
    state.absorb_output_event(event(
        OutputStream::Stderr,
        "build run failed after 2m — command failed with status exit code: 101",
    ));
    state.absorb_output_event(event(OutputStream::Subprocess, "error: linker `link.exe` not found"));
    state.flush_subprocess_output_to_troubleshooting();

    assert_eq!(state.troubleshooting_lines.len(), 2);
    assert!(!state.troubleshooting_lines[0].continuation);
    assert!(state.troubleshooting_lines[1].continuation);
}

#[test]
fn subprocess_step_success_clears_buffered_output() {
    let mut state = AppState::new();
    state.absorb_output_event(event(OutputStream::Subprocess, "Finished `dev` profile"));
    state.absorb_output_event(event(OutputStream::SubprocessStepSucceeded, ""));
    state.absorb_output_event(event(OutputStream::Subprocess, "error: linker `link.exe` not found"));

    state.flush_subprocess_output_to_troubleshooting();
    assert_eq!(state.troubleshooting_lines.len(), 1);
    assert!(state.troubleshooting_lines[0].continuation);
    assert!(state.troubleshooting_lines[0].text.contains("linker `link.exe`"));
}

#[test]
fn subprocess_progress_lines_are_not_diagnostics() {
    assert!(is_subprocess_progress_line("Finished `dev` profile [unoptimized + debuginfo] target(s) in 0.33s"));
    assert!(!subprocess_line_is_diagnostic("Finished `dev` profile [unoptimized + debuginfo] target(s) in 0.33s"));
    assert!(subprocess_line_is_diagnostic("error: could not compile `dhara-sd` due to 1 previous error"));
}

#[test]
fn more_progress_line_shapes() {
    assert!(is_subprocess_progress_line("test result: ok. 3 passed"));
    assert!(!is_subprocess_progress_line("test result: FAILED. 1 failed"));
    assert!(is_subprocess_progress_line("running 12 tests"));
    assert!(!subprocess_line_is_diagnostic("   "));
    assert!(subprocess_line_is_diagnostic("note: something else"));
}

#[test]
fn selecting_and_running_a_command() {
    let registry = registry_with_show();
    let mut state = AppState::with_repository_label("repo".to_owned());
    state.select_command(&registry, "config.show", None);
    assert_eq!(state.selected_command_id, Some("config.show"));
    assert_eq!(state.status_message, "Selected config show");
    assert_eq!(state.forms.len(), 1);

    let request = state.run_selected(&registry, None).expect("run starts");
    assert_eq!(request.argv, vec!["config".to_owned(), "show".to_owned()]);
    assert_eq!(request.label, "config show");
    assert_eq!(state.status_tone, StatusTone::Running);
    assert_eq!(state.main_tab, MainTab::Troubleshooting);

    assert!(state.run_selected(&registry, None).is_none());
    assert_eq!(state.status_message, "A command is already running.");

    state.finish_active_run(RunCompletion::Succeeded(CommandResult::success()));
    assert_eq!(state.status_tone, StatusTone::Success);
    assert_eq!(state.status_message, "config show completed with status success.");
    assert!(state.active_run.is_none());
}

#[test]
fn running_without_selection_warns() {
    let registry = registry_with_show();
    let mut state = AppState::new();
    assert!(state.run_selected(&registry, None).is_none());
    assert_eq!(state.status_message, "No command selected.");
    assert_eq!(state.status_tone, StatusTone::Warning);
    state.select_command(&registry, "nope", None);
    assert_eq!(state.selected_command_id, None);
}

#[test]
fn failed_run_shows_headline_and_details() {
    let mut state = AppState::new();
    state.active_run = Some(ActiveRun { label: "build run".to_owned(), cancelable: true });
    state.absorb_output_event(event(OutputStream::Subprocess, "Compiling foo"));
    state.absorb_output_event(event(OutputStream::Subprocess, "error: boom"));
    state.finish_active_run(RunCompletion::Failed("build failed".to_owned()));
    assert_eq!(state.status_tone, StatusTone::Failed);
    assert_eq!(state.troubleshooting_lines.len(), 2);
    assert_eq!(state.troubleshooting_lines[0].text, "error: boom");
    assert!(state.troubleshooting_lines[0].continuation);
    assert_eq!(state.troubleshooting_lines[1].text, "build failed");
    assert_eq!(state.troubleshooting_lines[1].severity, DiagnosticSeverity::Error);
    assert_eq!(state.status_message, "build failed");
}

#[test]
fn cancel_and_progress_decisions() {
    let mut state = AppState::new();
    assert!(!state.cancel_active());
    assert_eq!(state.status_message, "No active command to cancel.");
    state.apply_progress_snapshot(progress(RunPhase::Running, 10, "x"));
    assert!(state.progress.is_none());
    state.active_run = Some(ActiveRun { label: "x".to_owned(), cancelable: false });
    assert!(!state.cancel_active());
    assert_eq!(state.status_message, "The active command cannot be canceled safely.");
    state.active_run = Some(ActiveRun { label: "x".to_owned(), cancelable: true });
    assert!(state.cancel_active());
    state.report_cancel(true);
    assert_eq!(state.status_message, "Sent cancellation request to the active subprocess.");
    state.apply_progress_snapshot(progress(RunPhase::Running, 42, "parse: 42/100"));
    assert_eq!(state.progress.as_ref().unwrap().percent, 42);
}

#[test]
fn activation_prompt_flow() {
    let mut state = AppState::new();
    assert!(state.apply_activation_confirm().is_none());
    state.decline_activation();
    assert!(state.should_quit);
    assert_eq!(state.status_tone, StatusTone::Warning);
}

#[test]
fn repository_labels_from_paths() {
    assert_eq!(AppState::repository_label_from_path("/home/me/repo"), "repo");
    assert_eq!(AppState::repository_label_from_path("/home/me/repo/"), "repo");
    assert_eq!(AppState::repository_label_from_path("/home/me/repo/."), "repo");
    assert_eq!(AppState::repository_label_from_path("/"), "/");
    assert_eq!(AppState::repository_label_from_path("a/.."), "a/..");
    assert_eq!(AppState::repository_label_from_path("."), ".");
    for p in ["/home/me/repo", "/home/me/repo/", "x", "/a/b/./"] {
        let expected = std::path::Path::new(p)
            .file_name()
            .and_then(|v| v.to_str())
            .map(str::to_owned)
            .unwrap_or_else(|| p.to_owned());
        assert_eq!(AppState::repository_label_from_path(p), expected);
    }
}

fn interactive_context() -> ToolContext {
    ToolContext {
        repo_root: ".".into(),
        tool_root: ".".into(),
        run_mode: RunMode::Interactive,
        min: false,
        trace: false,
        workers: 4,
        package_dir: None,
        output_dir: None,
        logs_dir: None,
    }
}

#[test]
fn poll_active_run_sets_success_tone() {
    let registry = registry_with_show();
    let mut state = AppState::with_repository_label("repo".to_owned());
    state.select_command(&registry, "config.show", None);

    let request = state.run_selected(&registry, None).expect("run starts");
    assert_eq!(request.argv, vec!["config".to_owned(), "show".to_owned()]);
    assert_eq!(request.label, "config show");
    state.main_tab = MainTab::Troubleshooting;

    let completion = match registry.execute(&interactive_context(), &request.argv) {
        Ok(result) => RunCompletion::Succeeded(result),
        Err(error) => RunCompletion::Failed(error),
    };
    state.poll_active_run(Vec::new(), Some(completion));

    assert_eq!(state.status_tone, StatusTone::Success);
    assert!(state.progress.is_none());
}

#[test]
fn apply_progress_snapshot_updates_bar() {
    let registry = registry_with_show();
    let mut state = AppState::with_repository_label("repo".to_owned());
    state.select_command(&registry, "config.show", None);
    let _request = state.run_selected(&registry, None).expect("run starts");
    let _ = interactive_context();

    state.apply_progress_snapshot(ProgressInfo {
        phase: RunPhase::Running,
        percent: 42,
        step_label: "parse: 42/100".to_owned(),
        analyzing_message: String::new(),
        activity_label: String::new(),
        elapsed_secs: None,
    });

    let progress = state.progress.expect("progress set");
    assert_eq!(progress.percent, 42);
    assert!(progress.step_label.contains("parse"));
}

#[test]
fn poll_takes_events_in_order_then_finishes() {
    let mut state = AppState::new();
    state.poll_active_run(vec![event(OutputStream::Stderr, "ignored")], None);
    assert!(state.troubleshooting_lines.is_empty());

    state.active_run = Some(ActiveRun { label: "build run".to_owned(), cancelable: false });
    state.poll_active_run(
        vec![
            event(OutputStream::Warn, "careful"),
            event(OutputStream::Subprocess, "error: first"),
            event(OutputStream::Stdout, "plain"),
        ],
        None,
    );
    assert_eq!(state.troubleshooting_lines.len(), 1);
    assert_eq!(state.troubleshooting_lines[0].severity, DiagnosticSeverity::Warn);
    assert_eq!(state.subprocess_output_buffer, vec!["error: first".to_owned()]);
    assert!(state.active_run.is_some());

    state.poll_active_run(
        vec![event(OutputStream::Subprocess, "Compiling x")],
        Some(RunCompletion::Failed("build failed".to_owned())),
    );
    assert!(state.active_run.is_none());
    assert_eq!(state.status_tone, StatusTone::Failed);
    let texts: Vec<&str> = state.troubleshooting_lines.iter().map(|l| l.text.as_str()).collect();
    assert_eq!(texts, vec!["careful", "error: first", "build failed"]);
    assert_eq!(state.status_message, "careful");
}

#[test]
fn a_form_run_resolves_to_its_command_with_the_form_flags() {
    let mut registry = registry_with_show();
    let mut ui = CommandUi::empty("Pack");
    ui.fields = vec![drot::command::FieldSpec::boolean("release", "Release", "", "--release", Some("true"))];
    registry.add_command(CommandSpec {
        id: "package.pack",
        path: &["package", "pack"],
        summary: "Pack",
        args_summary: "",
        section: "config",
        ui,
        handler: Some(Arc::new(Noop)),
        is_disabled: false,
        disabled_reason: None,
    });
    let mut state = AppState::new();
    state.select_command(&registry, "package.pack", None);
    let request = state.run_selected(&registry, None).expect("run starts");
    assert_eq!(request.argv, vec!["package".to_owned(), "pack".to_owned(), "--release".to_owned()]);

    let (command, rest) = registry.resolve(&request.argv).expect("resolves");
    assert_eq!(command.id, "package.pack");
    assert_eq!(rest, &["--release".to_owned()]);
}

#[test]
fn reset_restores_the_tui_defaults_of_that_form_only() {
    let mut registry = registry_with_show();
    let mut ui = CommandUi::empty("Pack");
    ui.fields = vec![drot::command::FieldSpec::boolean("release", "Release", "", "--release", Some("true"))];
    let pack = CommandSpec {
        id: "package.pack",
        path: &["package", "pack"],
        summary: "Pack",
        args_summary: "",
        section: "config",
        ui,
        handler: Some(Arc::new(Noop)),
        is_disabled: false,
        disabled_reason: None,
    };
    registry.add_command(pack.clone());
    let mut state = AppState::new();
    state.select_command(&registry, "config.show", None);
    state.select_command(&registry, "package.pack", None);
    let show_form = state.forms[0].clone();
    state.forms[1].values[0] = drot::forms::FormValue::Boolean(false);
    state.forms[1].selected_field = 0;

    state.reset_form(&pack, None);
    assert_eq!(state.forms.len(), 2);
    assert_eq!(state.forms[0], show_form);
    assert_eq!(state.forms[1].command_id, "package.pack");
    assert_eq!(state.forms[1].values, vec![drot::forms::FormValue::Boolean(true)]);
    assert_eq!(state.status_message, "Reset options for package pack");
    assert_eq!(state.status_tone, StatusTone::Ready);
}
