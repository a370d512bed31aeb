use std::sync::Arc;

use drot::command::{CommandHandler, CommandRegistry, CommandSpec, CommandUi, SectionSpec};
use drot::context::{
    CommandResult, ProgressSettings, ReportField, RunMode, StructuredReport, ToolContext, interactive_mode_enabled,
};

struct Noop;

impl CommandHandler for Noop {
    fn run(&self, _: &ToolContext, _: &[String]) -> Result<CommandResult, String> {
        Ok(CommandResult::success())
    }
}

struct ReportHandler;

impl CommandHandler for ReportHandler {
    fn run(&self, _: &ToolContext, args: &[String]) -> Result<CommandResult, String> {
        Ok(CommandResult::with_report(StructuredReport {
            title: "dispatch".to_owned(),
            fields: vec![ReportField { label: "args".to_owned(), value: args.join(" ") }],
        }))
    }
}

struct Panicking;

impl CommandHandler for Panicking {
    fn run(&self, _: &ToolContext, _: &[String]) -> Result<CommandResult, String> {
        panic!("handler must not run when disabled");
    }
}

fn noop() -> Option<Arc<dyn CommandHandler>> {
    Some(Arc::new(Noop))
}

fn context() -> ToolContext {
    ToolContext {
        repo_root: ".".to_owned(),
        tool_root: ".".to_owned(),
        run_mode: RunMode::Direct,
        min: false,
        trace: false,
        workers: 4,
        package_dir: None,
        output_dir: None,
        logs_dir: None,
    }
}

fn spec(
    id: &'static str,
    path: &'static [&'static str],
    section: &'static str,
    summary: &'static str,
    handler: Option<Arc<dyn CommandHandler>>,
) -> CommandSpec {
    CommandSpec {
        id,
        path,
        summary,
        args_summary: "",
        section,
        ui: CommandUi::empty(summary),
        handler,
        is_disabled: false,
        disabled_reason: None,
    }
}

#[test]
fn resolves_longest_matching_path() {
    let mut registry = CommandRegistry::new();
    registry.add_section(SectionSpec { name: "config", prompt: "cfg> ", summary: "Config commands" });
    registry.add_command(spec("config", &["config"], "config", "Config root", noop()));
    registry.add_command(spec("config.show", &["config", "show"], "config", "Show config", noop()));

    let args = vec!["config".to_owned(), "show".to_owned(), "--x".to_owned()];
    let (command, rest) = registry.resolve(&args).expect("command should resolve");
    assert_eq!(command.id, "config.show");
    assert_eq!(rest, &["--x".to_owned()]);
}

#[test]
fn execute_dispatches_to_registered_handler() {
    let mut registry = CommandRegistry::new();
    registry.add_section(SectionSpec { name: "verify", prompt: "verify> ", summary: "Verification commands" });
    registry.add_command(CommandSpec {
        id: "verify.package",
        path: &["verify", "package"],
        summary: "Verify package",
        args_summary: "[--configuration <name>]",
        section: "verify",
        ui: CommandUi::empty("Verify package"),
        handler: Some(Arc::new(ReportHandler)),
        is_disabled: false,
        disabled_reason: None,
    });

    let result = registry
        .execute(
            &context(),
            &["verify".to_owned(), "package".to_owned(), "--configuration".to_owned(), "Release".to_owned()],
        )
        .expect("command should execute");

    assert_eq!(result.exit_code, 0);
    let report = result.report.expect("report should be returned");
    assert_eq!(report.title, "dispatch");
    assert_eq!(report.fields[0].value, "--configuration Release");
}

#[test]
fn help_text_groups_commands_by_section() {
    let mut registry = CommandRegistry::new();
    registry.add_section(SectionSpec { name: "config", prompt: "cfg> ", summary: "Config commands" });
    registry.add_command(spec("config.show", &["config", "show"], "config", "Show config", noop()));

    let help = registry.help_text();
    assert!(help.contains("Dhara tool commands:"));
    assert!(help.contains("config:"));
    assert!(help.contains("config show"));
    assert!(help.contains("Show config"));
}

#[test]
fn upsert_replaces_handler_and_disable_flags() {
    let mut registry = CommandRegistry::new();
    registry.add_section(SectionSpec { name: "version", prompt: "v> ", summary: "Version" });
    registry.upsert_command(spec("version.bump", &["version", "bump"], "version", "Bump", None));
    registry.upsert_command(CommandSpec {
        id: "version.bump",
        path: &["version", "bump"],
        summary: "Bump version",
        args_summary: "--part <major|minor|patch>",
        section: "version",
        ui: CommandUi::empty("Bump"),
        handler: noop(),
        is_disabled: false,
        disabled_reason: None,
    });

    let command = registry.commands().find(|c| c.id == "version.bump").expect("upserted");
    assert!(!command.is_effectively_disabled());
    assert!(command.handler.is_some());
    assert_eq!(command.summary, "Bump version");
}

#[test]
fn disabled_command_does_not_invoke_handler() {
    let mut registry = CommandRegistry::new();
    registry.add_section(SectionSpec { name: "version", prompt: "v> ", summary: "Version" });
    registry.add_command(CommandSpec {
        id: "version.bump",
        path: &["version", "bump"],
        summary: "Bump",
        args_summary: "",
        section: "version",
        ui: CommandUi::empty("Bump"),
        handler: Some(Arc::new(Panicking)),
        is_disabled: true,
        disabled_reason: Some("disabled by the developers"),
    });

    let result = registry
        .execute(&context(), &["version".to_owned(), "bump".to_owned()])
        .expect("disabled execute returns a result");
    assert_eq!(result.exit_code, 1);
    assert!(result.message.as_deref().unwrap_or("").contains("disabled by the developers"));
}

#[test]
fn missing_handler_is_effectively_disabled() {
    let command = spec("version.set", &["version", "set"], "version", "Set", None);
    assert!(command.is_effectively_disabled());
    assert_eq!(command.disable_message(), "not implemented by this extension");
}

#[test]
fn help_marks_disabled_commands() {
    let mut registry = CommandRegistry::new();
    registry.add_section(SectionSpec { name: "version", prompt: "v> ", summary: "Version" });
    registry.add_command(spec("version.set", &["version", "set"], "version", "Set version", None));
    let help = registry.help_text();
    assert!(help.contains("(disabled)"));
    assert!(help.contains("not implemented by this extension"));
}

#[test]
fn unknown_path_is_an_error_naming_the_words() {
    let registry = CommandRegistry::new();
    let err = registry.execute(&context(), &["nope".to_owned(), "x".to_owned()]).unwrap_err();
    assert_eq!(err, "unknown command path: nope x");
}

#[test]
fn sections_come_in_name_order_and_replace_by_name() {
    let mut registry = CommandRegistry::new();
    registry.add_section(SectionSpec { name: "version", prompt: "v> ", summary: "Version" });
    registry.add_section(SectionSpec { name: "build", prompt: "b> ", summary: "Build" });
    registry.add_section(SectionSpec { name: "config", prompt: "c> ", summary: "Config" });
    registry.add_section(SectionSpec { name: "build", prompt: "b2> ", summary: "Build again" });
    let names: Vec<&str> = registry.sections().map(|s| s.name).collect();
    assert_eq!(names, vec!["build", "config", "version"]);
    assert_eq!(registry.sections().next().unwrap().prompt, "b2> ");
}

#[test]
fn upsert_keeps_one_command_per_id_in_registration_order() {
    let mut registry = CommandRegistry::new();
    registry.upsert_command(spec("a", &["a"], "s", "A", None));
    registry.upsert_command(spec("b", &["b"], "s", "B", None));
    registry.upsert_command(spec("a", &["a"], "s", "A2", noop()));
    let ids: Vec<&str> = registry.commands().map(|c| c.id).collect();
    assert_eq!(ids, vec!["a", "b"]);
    assert_eq!(registry.commands().next().unwrap().summary, "A2");
}

#[test]
fn resolve_without_match_gives_none() {
    let mut registry = CommandRegistry::new();
    registry.add_command(spec("config.show", &["config", "show"], "config", "Show", noop()));
    assert!(registry.resolve(&["config".to_owned()]).is_none());
}

#[test]
fn commands_for_section_filters_in_order() {
    let mut registry = CommandRegistry::new();
    registry.add_command(spec("a", &["a"], "x", "A", None));
    registry.add_command(spec("b", &["b"], "y", "B", None));
    registry.add_command(spec("c", &["c"], "x", "C", None));
    let ids: Vec<&str> = registry.commands_for_section("x").into_iter().map(|c| c.id).collect();
    assert_eq!(ids, vec!["a", "c"]);
}

#[test]
fn path_string_joins_words() {
    let command = spec("config.env.init", &["config", "env", "init"], "config", "Init", None);
    assert_eq!(command.path_string(), "config env init");
}

#[test]
fn disabled_reason_is_preferred() {
    let mut command = spec("x", &["x"], "s", "X", noop());
    command.is_disabled = true;
    command.disabled_reason = Some("not today");
    assert_eq!(command.disable_message(), "not today");
    command.disabled_reason = None;
    assert_eq!(command.disable_message(), "disabled by the developers");
}


#[test]
fn progress_goes_to_the_console_only_in_direct_mode_on_a_terminal() {
    let direct = ProgressSettings::from_context(&context());
    assert!(!direct.trace);
    assert!(direct.console_enabled(true));
    assert!(!direct.console_enabled(false));
    assert!(!interactive_mode_enabled(&direct));

    let mut tui = context();
    tui.run_mode = RunMode::Interactive;
    tui.trace = true;
    let interactive = ProgressSettings::from_context(&tui);
    assert!(interactive.trace);
    assert!(!interactive.console_enabled(true));
    assert!(interactive_mode_enabled(&interactive));

    let before = ProgressSettings::unrecorded();
    assert!(!before.trace);
    assert!(before.console_enabled(true));
}

#[test]
fn add_command_appends_at_the_end() {
    let mut registry = CommandRegistry::new();
    registry.add_command(spec("a", &["a"], "x", "A", None));
    registry.add_command(spec("b", &["b"], "x", "B", None));
    let ids: Vec<&str> = registry.commands().map(|c| c.id).collect();
    assert_eq!(ids, vec!["a", "b"]);
    registry.add_command(spec("a", &["a", "again"], "x", "A2", None));
    let summaries: Vec<&str> = registry.commands().map(|c| c.summary).collect();
    assert_eq!(summaries, vec!["A", "B", "A2"]);
    assert_eq!(registry.sections().count(), 0);
}
