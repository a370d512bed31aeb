//! Invocation context handed to command handlers, and the results they report.
use vstd::prelude::*;

verus! {

/// Whether the tool runs as the Direct CLI or the interactive TUI.
#[derive(Debug, Clone, Copy, PartialEq, Eq, Structural)]
pub enum RunMode {
    Direct,
    Interactive,
}

/// Everything a command handler needs to know about the current invocation.
///
/// Paths are held as text; the binary turns them into file-system paths at the edge.
#[derive(Debug, Clone)]
pub struct ToolContext {
    pub repo_root: String,
    pub tool_root: String,
    pub run_mode: RunMode,
    pub min: bool,
    pub trace: bool,
    pub workers: usize,
    pub package_dir: Option<String>,
    pub output_dir: Option<String>,
    pub logs_dir: Option<String>,
}

/// One labelled line of a structured report.
#[derive(Debug, Clone, PartialEq, Eq)]
pub struct ReportField {
    pub label: String,
    pub value: String,
}

/// A titled list of labelled values produced by a command.
#[derive(Debug, Clone, PartialEq, Eq)]
pub struct StructuredReport {
    pub title: String,
    pub fields: Vec<ReportField>,
}

/// What a command run returns: an exit code and an optional report or message.
#[derive(Debug, Clone, PartialEq, Eq)]
pub struct CommandResult {
    pub exit_code: i32,
    pub report: Option<StructuredReport>,
    pub message: Option<String>,
}

impl CommandResult {
    /// Exit code 0 with nothing to report.
    pub fn success() -> (r: Self)
        ensures
            r.exit_code == 0,
            r.report.is_none(),
            r.message.is_none(),
    {
        CommandResult { exit_code: 0, report: None, message: None }
    }

    /// Exit code 0 carrying `report`.
    pub fn with_report(report: StructuredReport) -> (r: Self)
        ensures
            r.exit_code == 0,
            r.report == Some(report),
            r.message.is_none(),
    {
        CommandResult { exit_code: 0, report: Some(report), message: None }
    }

    /// Exit code 0 carrying `message`.
    pub fn with_message(message: String) -> (r: Self)
        ensures
            r.exit_code == 0,
            r.report.is_none(),
            r.message == Some(message),
    {
        CommandResult { exit_code: 0, report: None, message: Some(message) }
    }
}

/// How progress is reported: with tracing or not, and for which run mode.
#[derive(Debug, Clone, Copy, PartialEq, Eq, Structural)]
pub struct ProgressSettings {
    pub trace: bool,
    pub run_mode: RunMode,
}

impl ProgressSettings {
    /// The settings of an invocation.
    pub fn from_context(context: &ToolContext) -> (r: Self)
        ensures
            r.trace == context.trace,
            r.run_mode == context.run_mode,
    {
        ProgressSettings { trace: context.trace, run_mode: context.run_mode }
    }

    /// Whether progress goes to the console: in direct mode, when standard error is a terminal
    /// (`stderr_is_terminal`, which the host reads).
    pub fn console_enabled(&self, stderr_is_terminal: bool) -> (r: bool)
        ensures
            r == (self.run_mode == RunMode::Direct && stderr_is_terminal),
    {
        match self.run_mode {
            RunMode::Direct => stderr_is_terminal,
            RunMode::Interactive => false,
        }
    }

    /// The settings in force before an invocation records its own: no tracing, direct mode.
    pub fn unrecorded() -> (r: Self)
        ensures
            !r.trace,
            r.run_mode == RunMode::Direct,
    {
        ProgressSettings { trace: false, run_mode: RunMode::Direct }
    }
}

/// True when progress goes to the interactive TUI rather than the console.
pub fn interactive_mode_enabled(settings: &ProgressSettings) -> (r: bool)
    ensures
        r == (settings.run_mode == RunMode::Interactive),
{
    match settings.run_mode {
        RunMode::Interactive => true,
        RunMode::Direct => false,
    }
}

} // verus!
