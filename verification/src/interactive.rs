//! The state of the interactive TUI session and the decisions it takes on each event: command
//! selection, option forms, starting a run, absorbing the run's output, finishing it,
//! cancellation and activation prompts. Running commands, reading the output channel and
//! drawing are the host's part.
use vstd::prelude::*;

use crate::command::{CommandRegistry, CommandSpec, spec_path_string, str_views, string_views};
use crate::context::CommandResult;
use crate::forms::{CommandForm, FormValueView, args_view, init_values, spec_build_args, value_views};
use crate::product::ProductHooks;
use crate::repo_config::ConfigDriftItem;
use crate::text::{concat, concat3, contains, ends_with, has_infix, has_prefix, has_suffix, starts_with, str_eq, trim, trim_seq};

verus! {

/// The tabs of the main panel.
#[derive(Debug, Clone, Copy, PartialEq, Eq, Structural)]
pub enum MainTab {
    Info,
    Options,
    Troubleshooting,
    SystemConfigs,
}

/// The tone of the status line.
#[derive(Debug, Clone, Copy, PartialEq, Eq, Structural)]
pub enum StatusTone {
    Ready,
    Running,
    Success,
    Failed,
    Warning,
}

/// How serious a troubleshooting line is.
#[derive(Debug, Clone, Copy, PartialEq, Eq, Structural)]
pub enum DiagnosticSeverity {
    Warn,
    Error,
}

/// One line of the troubleshooting tab.
#[derive(Debug, Clone, PartialEq, Eq)]
pub struct DiagnosticLine {
    pub severity: DiagnosticSeverity,
    pub text: String,
    /// Indented detail under a preceding headline (same error block).
    pub continuation: bool,
}

/// The configuration drift an activation asks the operator to apply.
#[derive(Debug, Clone)]
pub struct ActivationPrompt {
    pub drifts: Vec<ConfigDriftItem>,
}

impl ActivationPrompt {
    /// A prompt for `drifts`.
    pub fn new(drifts: Vec<ConfigDriftItem>) -> (r: Self)
        ensures
            r.drifts == drifts,
    {
        ActivationPrompt { drifts }
    }
}

/// Where a line of a running command's output came from.
#[derive(Debug, Clone, Copy, PartialEq, Eq, Structural)]
pub enum OutputStream {
    Stdout,
    Stderr,
    Warn,
    /// Output of a child process, held back until the command fails.
    Subprocess,
    /// A child process step finished successfully; its held-back output is dropped.
    SubprocessStepSucceeded,
}

/// One line of a running command's output.
#[derive(Debug, Clone, PartialEq, Eq)]
pub struct OutputEvent {
    pub stream: OutputStream,
    pub line: String,
}

/// The command that is running: its label and whether it may be cancelled.
#[derive(Debug, Clone, PartialEq, Eq)]
pub struct ActiveRun {
    pub label: String,
    pub cancelable: bool,
}

/// A run the host is asked to start: the full command line, its label and whether it may be
/// cancelled.
#[derive(Debug, Clone, PartialEq, Eq)]
pub struct RunRequest {
    pub argv: Vec<String>,
    pub label: String,
    pub cancelable: bool,
}

/// How a run ended: the command's result, or the error it failed with.
#[derive(Debug, Clone, PartialEq, Eq)]
pub enum RunCompletion {
    Succeeded(CommandResult),
    Failed(String),
}

/// The phase of a run's progress.
#[derive(Debug, Clone, Copy, PartialEq, Eq, Structural)]
pub enum RunPhase {
    Analyzing,
    Running,
    Complete,
}

/// The progress of a run as the host reports it: its phase, percentage and step label, the
/// message shown while analysing, the label of the current activity and the seconds elapsed
/// (when shown).
#[derive(Debug, Clone, PartialEq, Eq)]
pub struct ProgressInfo {
    pub phase: RunPhase,
    pub percent: u8,
    pub step_label: String,
    pub analyzing_message: String,
    pub activity_label: String,
    pub elapsed_secs: Option<u64>,
}

/// The interactive session.
pub struct AppState {
    pub repository_label: String,
    /// The command selected in the navigation tree.
    pub selected_command_id: Option<&'static str>,
    pub main_tab: MainTab,
    /// The option forms edited so far, at most one per command.
    pub forms: Vec<CommandForm>,
    pub active_run: Option<ActiveRun>,
    pub troubleshooting_lines: Vec<DiagnosticLine>,
    /// Output of child processes held back until the command fails.
    pub subprocess_output_buffer: Vec<String>,
    pub progress: Option<ProgressInfo>,
    pub status_message: String,
    pub status_tone: StatusTone,
    pub should_quit: bool,
    pub activation_prompt: Option<ActivationPrompt>,
    pub system_configs_text: Option<String>,
}

/// A troubleshooting line as plain values.
pub open spec fn line_view(d: DiagnosticLine) -> (DiagnosticSeverity, Seq<char>, bool) {
    (d.severity, d.text@, d.continuation)
}

/// Troubleshooting lines as plain values.
pub open spec fn lines_view(ds: Seq<DiagnosticLine>) -> Seq<(DiagnosticSeverity, Seq<char>, bool)> {
    ds.map_values(|d: DiagnosticLine| line_view(d))
}

/// True when a (trimmed) subprocess line is routine progress noise of cargo, the test
/// harness or a shell echo.
pub open spec fn spec_is_progress(line: Seq<char>) -> bool {
    ||| has_prefix(line, "Finished `"@)
    ||| has_prefix(line, "Generated "@)
    ||| has_prefix(line, "Compiling "@)
    ||| has_prefix(line, "Checking "@)
    ||| has_prefix(line, "Documenting "@)
    ||| has_prefix(line, "Running unittests "@)
    ||| has_prefix(line, "Running tests"@)
    ||| has_prefix(line, "Doc-tests "@)
    ||| has_prefix(line, "> "@)
    ||| has_prefix(line, "     Running "@)
    ||| (has_prefix(line, "test result:"@) && has_infix(line, "ok."@))
    ||| (has_prefix(line, "running "@) && has_suffix(line, " tests"@))
}

/// True when a subprocess line is worth showing after a failure: any non-blank line that is
/// not progress noise (compiler errors and warnings, panics, linker and MSBuild notes alike).
pub open spec fn spec_is_diagnostic(line: Seq<char>) -> bool {
    trim_seq(line).len() > 0 && !spec_is_progress(trim_seq(line))
}

/// The troubleshooting lines a flush adds for the held-back output `buffer`: its diagnostic
/// lines, in order, as error details under the headline.
pub open spec fn flushed(buffer: Seq<Seq<char>>) -> Seq<(DiagnosticSeverity, Seq<char>, bool)>
    decreases buffer.len(),
{
    if buffer.len() == 0 {
        Seq::empty()
    } else {
        flushed(buffer.drop_last()) + if spec_is_diagnostic(buffer.last()) {
            seq![(DiagnosticSeverity::Error, buffer.last(), true)]
        } else {
            Seq::empty()
        }
    }
}

/// True when some line is an error headline (an error that is not a detail).
pub open spec fn spec_has_error_headline(lines: Seq<(DiagnosticSeverity, Seq<char>, bool)>) -> bool {
    exists|i: int| 0 <= i < lines.len() && !(#[trigger] lines[i]).2 && lines[i].0 == DiagnosticSeverity::Error
}

/// The text of the first line that is not a detail.
pub open spec fn first_headline(lines: Seq<(DiagnosticSeverity, Seq<char>, bool)>) -> Option<Seq<char>>
    decreases lines.len(),
{
    if lines.len() == 0 {
        None
    } else if !lines[0].2 {
        Some(lines[0].1)
    } else {
        first_headline(lines.drop_first())
    }
}

/// The form of command `id` among `forms`.
pub open spec fn form_index(forms: Seq<CommandForm>, id: Seq<char>) -> Option<int> {
    if exists|i: int| 0 <= i < forms.len() && #[trigger] forms[i].command_id@ == id {
        Some(choose|i: int| 0 <= i < forms.len() && #[trigger] forms[i].command_id@ == id)
    } else {
        None
    }
}

/// No two forms belong to the same command.
pub open spec fn forms_unique(forms: Seq<CommandForm>) -> bool {
    forall|i: int, j: int|
        0 <= i < forms.len() && 0 <= j < forms.len() && i != j ==> #[trigger] forms[i].command_id@
            != #[trigger] forms[j].command_id@
}

/// The ids of a command list.
pub open spec fn command_ids(cmds: Seq<CommandSpec>) -> Seq<Seq<char>> {
    cmds.map_values(|c: CommandSpec| c.id@)
}

/// The index of the command `id` in a command list.
pub open spec fn command_index(cmds: Seq<CommandSpec>, id: Seq<char>) -> Option<int> {
    crate::text::spec_position(command_ids(cmds), id)
}

/// The state after a run labelled `label` ended with `completion`, from troubleshooting lines
/// `lines` and held-back output `buffer`: the run and its progress are gone and nothing is held
/// back; a zero exit code reports success and drops the held-back output; a non-zero one, or an
/// error, shows the held-back diagnostics (see `flushed`), an error adds itself as headline
/// when there is none, and the status reports the failure.
pub open spec fn finished_as(
    lines: Seq<(DiagnosticSeverity, Seq<char>, bool)>,
    buffer: Seq<Seq<char>>,
    label: Seq<char>,
    completion: RunCompletion,
    after: AppState,
) -> bool {
    &&& after.active_run is None
    &&& after.progress is None
    &&& after.buffer().len() == 0
    &&& match completion {
        RunCompletion::Succeeded(result) => if result.exit_code == 0 {
            &&& after.status_tone == StatusTone::Success
            &&& after.status_message@ == label + " completed with status success."@
            &&& lines_view(after.troubleshooting_lines@) == lines
        } else {
            &&& after.status_tone == StatusTone::Failed
            &&& after.status_message@ == label + " completed with status failed."@
            &&& lines_view(after.troubleshooting_lines@) == lines + flushed(buffer)
        },
        RunCompletion::Failed(error) => {
            let shown = lines + flushed(buffer);
            let all = if spec_has_error_headline(shown) {
                shown
            } else {
                shown.push((DiagnosticSeverity::Error, error@, false))
            };
            &&& after.status_tone == StatusTone::Failed
            &&& lines_view(after.troubleshooting_lines@) == all
            &&& after.status_message@ == match first_headline(all) {
                Some(t) => t,
                None => "Command failed."@,
            }
        },
    }
}

/// The troubleshooting lines and held-back output after taking in one output line (see
/// `AppState::absorb_output_event`).
pub open spec fn absorb_one(
    lines: Seq<(DiagnosticSeverity, Seq<char>, bool)>,
    buffer: Seq<Seq<char>>,
    event: OutputEvent,
) -> (Seq<(DiagnosticSeverity, Seq<char>, bool)>, Seq<Seq<char>>) {
    match event.stream {
        OutputStream::Stderr => (lines.push((DiagnosticSeverity::Error, event.line@, false)), buffer),
        OutputStream::Warn => (lines.push((DiagnosticSeverity::Warn, event.line@, false)), buffer),
        OutputStream::Subprocess => (lines, buffer.push(event.line@)),
        OutputStream::SubprocessStepSucceeded => (lines, Seq::empty()),
        OutputStream::Stdout => (lines, buffer),
    }
}

/// The troubleshooting lines and held-back output after taking in `events` in order.
pub open spec fn absorb_all(
    lines: Seq<(DiagnosticSeverity, Seq<char>, bool)>,
    buffer: Seq<Seq<char>>,
    events: Seq<OutputEvent>,
) -> (Seq<(DiagnosticSeverity, Seq<char>, bool)>, Seq<Seq<char>>)
    decreases events.len(),
{
    if events.len() == 0 {
        (lines, buffer)
    } else {
        let (l, b) = absorb_all(lines, buffer, events.drop_last());
        absorb_one(l, b, events.last())
    }
}

/// The values a fresh TUI form of `command` holds: its TUI defaults, prepared by the product
/// when there are product hooks.
pub open spec fn fresh_form_values(hooks: Option<&dyn ProductHooks>, command: CommandSpec) -> Seq<FormValueView> {
    match hooks {
        None => init_values(command.ui.fields@, true),
        Some(h) => h.initialized_values(init_values(command.ui.fields@, true), command),
    }
}

/// A fresh TUI form of `command` (see `fresh_form_values`), focused on its first field.
pub open spec fn is_fresh_form(f: CommandForm, hooks: Option<&dyn ProductHooks>, command: CommandSpec) -> bool {
    &&& f.command_id == command.id
    &&& f.selected_field == 0
    &&& value_views(f.values@) == fresh_form_values(hooks, command)
}

/// The two sessions agree on everything but their forms.
pub open spec fn same_but_forms(a: AppState, b: AppState) -> bool {
    a == AppState { forms: a.forms, ..b }
}

impl AppState {
    /// The output held back from the running command's child processes.
    pub open spec fn buffer(&self) -> Seq<Seq<char>> {
        string_views(self.subprocess_output_buffer@)
    }

    /// The session's own rule: at most one form per command.
    pub open spec fn wf(&self) -> bool {
        forms_unique(self.forms@)
    }

    /// A session for the repository `label`, showing the info tab, with nothing selected or
    /// running.
    pub fn with_repository_label(label: String) -> (r: Self)
        ensures
            r.wf(),
            r.repository_label == label,
            r.selected_command_id is None,
            r.main_tab == MainTab::Info,
            r.forms@.len() == 0,
            r.active_run is None,
            r.troubleshooting_lines@.len() == 0,
            r.buffer().len() == 0,
            r.progress is None,
            r.status_message@ == "Ready."@,
            r.status_tone == StatusTone::Ready,
            !r.should_quit,
            r.activation_prompt is None,
            r.system_configs_text is None,
    {
        let r = AppState {
            repository_label: label,
            selected_command_id: None,
            main_tab: MainTab::Info,
            forms: Vec::new(),
            active_run: None,
            troubleshooting_lines: Vec::new(),
            subprocess_output_buffer: Vec::new(),
            progress: None,
            status_message: "Ready.".to_owned(),
            status_tone: StatusTone::Ready,
            should_quit: false,
            activation_prompt: None,
            system_configs_text: None,
        };
        assert(r.buffer() =~= Seq::<Seq<char>>::empty());
        r
    }

    /// A session for the repository called `workspace`.
    pub fn new() -> (r: Self)
        ensures
            r.wf(),
            r.repository_label@ == "workspace"@,
            r.selected_command_id is None,
            r.main_tab == MainTab::Info,
            r.forms@.len() == 0,
            r.active_run is None,
            r.troubleshooting_lines@.len() == 0,
            r.buffer().len() == 0,
            r.progress is None,
            r.status_message@ == "Ready."@,
            r.status_tone == StatusTone::Ready,
    {
        Self::with_repository_label("workspace".to_owned())
    }

    /// Sets the status line.
    fn set_status(&mut self, message: String, tone: StatusTone)
        ensures
            *final(self) == (AppState { status_message: message, status_tone: tone, ..*old(self) }),
            final(self).buffer() == old(self).buffer(),
    {
        self.status_message = message;
        self.status_tone = tone;
    }

    /// The command selected in the navigation tree, looked up in `registry`.
    pub fn selected_command<'a>(&self, registry: &'a CommandRegistry) -> (r: Option<&'a CommandSpec>)
        ensures
            match self.selected_command_id {
                None => r is None,
                Some(id) => match command_index(registry.command_list(), id@) {
                    Some(k) => r == Some(&registry.command_list()[k]),
                    None => r is None,
                },
            },
    {
        let id = match self.selected_command_id {
            Some(id) => id,
            None => return None,
        };
        find_command(registry, id)
    }

    /// The position of the form of command `id`.
    fn find_form(&self, id: &str) -> (r: Option<usize>)
        ensures
            match r {
                Some(i) => i < self.forms@.len() && self.forms@[i as int].command_id@ == id@,
                None => forall|i: int| 0 <= i < self.forms@.len() ==> #[trigger] self.forms@[i].command_id@ != id@,
            },
    {
        let mut i: usize = 0;
        while i < self.forms.len()
            invariant
                i <= self.forms@.len(),
                forall|j: int| 0 <= j < i ==> #[trigger] self.forms@[j].command_id@ != id@,
            decreases self.forms.len() - i,
        {
            if str_eq(self.forms[i].command_id, id) {
                return Some(i);
            }
            i += 1;
        }
        None
    }

    /// Makes sure `command` has a form: an existing form is kept as it is and nothing changes;
    /// otherwise a fresh TUI form (see `is_fresh_form`) is appended and nothing else changes.
    pub fn ensure_form(&mut self, command: &CommandSpec, hooks: Option<&dyn ProductHooks>)
        requires
            old(self).wf(),
        ensures
            final(self).wf(),
            (exists|i: int|
                0 <= i < old(self).forms@.len() && #[trigger] old(self).forms@[i].command_id@ == command.id@)
                ==> *final(self) == *old(self),
            (forall|i: int|
                0 <= i < old(self).forms@.len() ==> #[trigger] old(self).forms@[i].command_id@ != command.id@) ==> {
                &&& final(self).forms@.len() == old(self).forms@.len() + 1
                &&& final(self).forms@.take(old(self).forms@.len() as int) == old(self).forms@
                &&& is_fresh_form(final(self).forms@.last(), hooks, *command)
            },
            same_but_forms(*final(self), *old(self)),
    {
        if self.find_form(command.id).is_some() {
            return;
        }
        let form = self.fresh_form(command, hooks);
        let ghost before = self.forms@;
        self.forms.push(form);
        assert(self.forms@.take(before.len() as int) =~= before);
    }

    /// A fresh TUI form of `command` (see `is_fresh_form`).
    fn fresh_form(&self, command: &CommandSpec, hooks: Option<&dyn ProductHooks>) -> (r: CommandForm)
        ensures
            is_fresh_form(r, hooks, *command),
    {
        let mut form = CommandForm::from_command_tui(command);
        if let Some(h) = hooks {
            h.initialize_tui_form(&mut form, command);
        }
        form
    }

    /// Replaces the form of `command` with a fresh TUI form (see `is_fresh_form`), at the place
    /// of the old one or appended when it had none, whatever the operator had edited; every
    /// other form stays, and the status line says `Reset options for <path>`.
    pub fn reset_form(&mut self, command: &CommandSpec, hooks: Option<&dyn ProductHooks>)
        requires
            old(self).wf(),
        ensures
            final(self).wf(),
            match form_index(old(self).forms@, command.id@) {
                Some(i) => {
                    &&& final(self).forms@.len() == old(self).forms@.len()
                    &&& is_fresh_form(final(self).forms@[i], hooks, *command)
                    &&& forall|j: int|
                        0 <= j < old(self).forms@.len() && j != i ==> #[trigger] final(self).forms@[j]
                            == old(self).forms@[j]
                },
                None => {
                    &&& final(self).forms@.len() == old(self).forms@.len() + 1
                    &&& final(self).forms@.take(old(self).forms@.len() as int) == old(self).forms@
                    &&& is_fresh_form(final(self).forms@.last(), hooks, *command)
                },
            },
            final(self).status_message@ == "Reset options for "@ + spec_path_string(*command),
            final(self).status_tone == StatusTone::Ready,
            *final(self) == (AppState {
                forms: final(self).forms,
                status_message: final(self).status_message,
                status_tone: final(self).status_tone,
                ..*old(self)
            }),
    {
        let form = self.fresh_form(command, hooks);
        match self.find_form(command.id) {
            Some(i) => {
                proof {
                    lemma_form_index(self.forms@, command.id@, i as int);
                }
                self.forms.set(i, form);
                assert forall|a: int, b: int|
                    0 <= a < self.forms@.len() && 0 <= b < self.forms@.len() && a != b implies #[trigger] self.forms@[a].command_id@
                    != #[trigger] self.forms@[b].command_id@ by {
                    assert(old(self).forms@[a].command_id@ != old(self).forms@[b].command_id@);
                }
            },
            None => {
                proof {
                    if form_index(old(self).forms@, command.id@) is Some {
                        let k = choose|k: int| 0 <= k < old(self).forms@.len() && #[trigger] old(self).forms@[k].command_id@ == command.id@;
                        assert(old(self).forms@[k].command_id@ != command.id@);
                    }
                }
                let ghost before = self.forms@;
                self.forms.push(form);
                assert(self.forms@.take(before.len() as int) =~= before);
            },
        }
        let message = concat("Reset options for ", command.path_string().as_str());
        self.set_status(message, StatusTone::Ready);
    }

    /// Selects the command `command_id` when `registry` has it: its form is ensured, the info
    /// tab shown and `Selected <path>` reported; an unknown id changes nothing.
    pub fn select_command(&mut self, registry: &CommandRegistry, command_id: &'static str, hooks: Option<&dyn ProductHooks>)
        requires
            old(self).wf(),
        ensures
            final(self).wf(),
            match command_index(registry.command_list(), command_id@) {
                None => *final(self) == *old(self),
                Some(k) => {
                    &&& final(self).selected_command_id == Some(command_id)
                    &&& final(self).main_tab == MainTab::Info
                    &&& final(self).status_message@ == "Selected "@ + spec_path_string(registry.command_list()[k])
                    &&& final(self).status_tone == StatusTone::Ready
                    &&& exists|i: int|
                        0 <= i < final(self).forms@.len() && #[trigger] final(self).forms@[i].command_id@ == command_id@
                    &&& final(self).forms@.take(old(self).forms@.len() as int) == old(self).forms@
                    &&& (exists|i: int|
                        0 <= i < old(self).forms@.len() && #[trigger] old(self).forms@[i].command_id@ == command_id@)
                        ==> final(self).forms == old(self).forms
                    &&& *final(self) == (AppState {
                        selected_command_id: final(self).selected_command_id,
                        main_tab: final(self).main_tab,
                        forms: final(self).forms,
                        status_message: final(self).status_message,
                        status_tone: final(self).status_tone,
                        ..*old(self)
                    })
                },
            },
    {
        let command = match find_command(registry, command_id) {
            Some(c) => c,
            None => return,
        };
        proof {
            lemma_command_index(registry.command_list(), command_id@);
        }
        self.selected_command_id = Some(command_id);
        self.ensure_form(command, hooks);
        self.main_tab = MainTab::Info;
        let message = concat("Selected ", command.path_string().as_str());
        self.set_status(message, StatusTone::Ready);
        proof {
            if exists|i: int| 0 <= i < old(self).forms@.len() && #[trigger] old(self).forms@[i].command_id@ == command.id@ {
                let i = choose|i: int| 0 <= i < old(self).forms@.len() && #[trigger] old(self).forms@[i].command_id@ == command.id@;
                assert(self.forms@[i].command_id@ == command_id@);
            } else {
                assert(self.forms@[self.forms@.len() - 1].command_id@ == command_id@);
            }
        }
    }

    /// Starts the selected command with the arguments of its form (see `spec_run_selected`):
    /// refused while a run is active or when nothing is selected, or with the form's error when
    /// a required field is empty; otherwise the troubleshooting view is cleared, the run
    /// recorded and the request for the host returned.
    pub fn run_selected(&mut self, registry: &CommandRegistry, hooks: Option<&dyn ProductHooks>) -> (r: Option<RunRequest>)
        requires
            old(self).wf(),
        ensures
            final(self).wf(),
            old(self).active_run is Some ==> {
                &&& r is None
                &&& final(self).status_message@ == "A command is already running."@
                &&& final(self).status_tone == StatusTone::Warning
                &&& final(self).active_run == old(self).active_run
                &&& final(self).troubleshooting_lines == old(self).troubleshooting_lines
            },
            old(self).active_run is None && (match old(self).selected_command_id {
                None => true,
                Some(id) => command_index(registry.command_list(), id@) is None,
            }) ==> {
                &&& r is None
                &&& final(self).status_message@ == "No command selected."@
                &&& final(self).status_tone == StatusTone::Warning
                &&& final(self).active_run is None
            },
            r matches Some(req) ==> {
                &&& old(self).active_run is None
                &&& old(self).selected_command_id matches Some(id) && command_index(registry.command_list(), id@) matches Some(k) && {
                    let c = registry.command_list()[k];
                    &&& args_view(Ok(req.argv)) == Ok::<Seq<Seq<char>>, Seq<char>>(
                        str_views(c.path@) + spec_build_args(
                            c.ui.fields@,
                            value_views(final(self).forms@[form_index(final(self).forms@, c.id@)->Some_0].values@),
                        )->Ok_0,
                    )
                    &&& req.label@ == spec_path_string(c)
                    &&& req.cancelable == c.ui.supports_cancel
                    &&& final(self).status_message@ == "Running "@ + spec_path_string(c) + "..."@
                }
                &&& final(self).status_tone == StatusTone::Running
                &&& final(self).active_run == Some(ActiveRun { label: req.label, cancelable: req.cancelable })
                &&& final(self).main_tab == MainTab::Troubleshooting
                &&& final(self).troubleshooting_lines@.len() == 0
                &&& final(self).buffer().len() == 0
                &&& final(self).progress is None
            },
            r is None && old(self).active_run is None ==> final(self).active_run is None && final(self).status_tone
                == StatusTone::Warning,
            old(self).active_run is None && (old(self).selected_command_id matches Some(id) && command_index(
                registry.command_list(),
                id@,
            ) is Some) ==> {
                let c = registry.command_list()[command_index(
                    registry.command_list(),
                    old(self).selected_command_id->Some_0@,
                )->Some_0];
                &&& form_index(final(self).forms@, c.id@) is Some
                &&& match spec_build_args(
                    c.ui.fields@,
                    value_views(final(self).forms@[form_index(final(self).forms@, c.id@)->Some_0].values@),
                ) {
                    Ok(_) => r is Some,
                    Err(e) => r is None && final(self).status_message@ == e,
                }
            },
    {
        if self.active_run.is_some() {
            self.set_status("A command is already running.".to_owned(), StatusTone::Warning);
            return None;
        }
        let command = match self.selected_command(registry) {
            Some(c) => c,
            None => {
                self.set_status("No command selected.".to_owned(), StatusTone::Warning);
                return None;
            },
        };
        self.ensure_form(command, hooks);
        let index = match self.find_form(command.id) {
            Some(i) => i,
            None => {
                self.set_status("Unable to initialize command form.".to_owned(), StatusTone::Warning);
                return None;
            },
        };
        proof {
            lemma_form_index(self.forms@, command.id@, index as int);
        }
        let args = match self.forms[index].build_args(command) {
            Ok(a) => a,
            Err(message) => {
                self.set_status(message, StatusTone::Warning);
                return None;
            },
        };
        let mut argv: Vec<String> = Vec::new();
        let mut k: usize = 0;
        while k < command.path.len()
            invariant
                k <= command.path@.len(),
                string_views(argv@) == str_views(command.path@).take(k as int),
            decreases command.path.len() - k,
        {
            let ghost before = argv@;
            let word = command.path[k].to_owned();
            argv.push(word);
            proof {
                crate::command::lemma_string_views_push(before, word);
                assert(str_views(command.path@).take(k + 1) =~= str_views(command.path@).take(k as int).push(
                    command.path@[k as int]@,
                ));
            }
            k += 1;
        }
        assert(str_views(command.path@).take(command.path@.len() as int) =~= str_views(command.path@));
        let ghost path_words = string_views(argv@);
        let mut j: usize = 0;
        while j < args.len()
            invariant
                j <= args@.len(),
                string_views(argv@) == path_words + string_views(args@).take(j as int),
            decreases args.len() - j,
        {
            let ghost before = argv@;
            let word = args[j].clone();
            argv.push(word);
            proof {
                crate::command::lemma_string_views_push(before, word);
                assert(string_views(args@).take(j + 1) =~= string_views(args@).take(j as int).push(args@[j as int]@));
                assert(path_words + string_views(args@).take(j + 1) =~= (path_words + string_views(args@).take(
                    j as int,
                )).push(word@));
            }
            j += 1;
        }
        assert(string_views(args@).take(args@.len() as int) =~= string_views(args@));
        let label = command.path_string();
        let cancelable = command.ui.supports_cancel;
        self.troubleshooting_lines = Vec::new();
        self.subprocess_output_buffer = Vec::new();
        self.progress = None;
        let message = concat3("Running ", label.as_str(), "...");
        self.set_status(message, StatusTone::Running);
        self.active_run = Some(ActiveRun { label: label.clone(), cancelable });
        self.main_tab = MainTab::Troubleshooting;
        assert(self.buffer() =~= Seq::<Seq<char>>::empty());
        Some(RunRequest { argv, label, cancelable })
    }

    /// Takes in one line of the running command's output: errors and warnings become headlines,
    /// child-process output is held back, a successful child step drops what was held back,
    /// standard output is not shown.
    pub fn absorb_output_event(&mut self, event: OutputEvent)
        ensures
            lines_view(final(self).troubleshooting_lines@) == match event.stream {
                OutputStream::Stderr => lines_view(old(self).troubleshooting_lines@).push(
                    (DiagnosticSeverity::Error, event.line@, false),
                ),
                OutputStream::Warn => lines_view(old(self).troubleshooting_lines@).push(
                    (DiagnosticSeverity::Warn, event.line@, false),
                ),
                _ => lines_view(old(self).troubleshooting_lines@),
            },
            final(self).buffer() == match event.stream {
                OutputStream::Subprocess => old(self).buffer().push(event.line@),
                OutputStream::SubprocessStepSucceeded => Seq::empty(),
                _ => old(self).buffer(),
            },
            final(self).forms == old(self).forms,
            final(self).active_run == old(self).active_run,
            final(self).status_message == old(self).status_message,
            final(self).status_tone == old(self).status_tone,
    {
        let ghost before_lines = self.troubleshooting_lines@;
        let ghost before_buf = self.subprocess_output_buffer@;
        match event.stream {
            OutputStream::Stderr => {
                self.troubleshooting_lines.push(
                    DiagnosticLine { severity: DiagnosticSeverity::Error, text: event.line, continuation: false },
                );
                assert(lines_view(self.troubleshooting_lines@) =~= lines_view(before_lines).push(
                    (DiagnosticSeverity::Error, event.line@, false),
                ));
            },
            OutputStream::Warn => {
                self.troubleshooting_lines.push(
                    DiagnosticLine { severity: DiagnosticSeverity::Warn, text: event.line, continuation: false },
                );
                assert(lines_view(self.troubleshooting_lines@) =~= lines_view(before_lines).push(
                    (DiagnosticSeverity::Warn, event.line@, false),
                ));
            },
            OutputStream::Subprocess => {
                let line = event.line;
                self.subprocess_output_buffer.push(line);
                proof {
                    crate::command::lemma_string_views_push(before_buf, line);
                }
            },
            OutputStream::SubprocessStepSucceeded => {
                self.subprocess_output_buffer = Vec::new();
                assert(self.buffer() =~= Seq::<Seq<char>>::empty());
            },
            OutputStream::Stdout => {},
        }
    }

    /// Moves the held-back child-process output into the troubleshooting view: its diagnostic
    /// lines (see `spec_is_diagnostic`), in order, as error details; the rest is dropped.
    pub fn flush_subprocess_output_to_troubleshooting(&mut self)
        ensures
            lines_view(final(self).troubleshooting_lines@) == lines_view(old(self).troubleshooting_lines@) + flushed(
                old(self).buffer(),
            ),
            final(self).buffer().len() == 0,
            final(self).forms == old(self).forms,
            final(self).active_run == old(self).active_run,
            final(self).status_message == old(self).status_message,
            final(self).status_tone == old(self).status_tone,
            final(self).progress == old(self).progress,
    {
        let ghost buf = self.buffer();
        let ghost start = lines_view(self.troubleshooting_lines@);
        let mut lines: Vec<String> = Vec::new();
        std::mem::swap(&mut lines, &mut self.subprocess_output_buffer);
        assert(string_views(lines@) == buf);
        let mut i: usize = 0;
        assert(buf.take(0) =~= Seq::<Seq<char>>::empty());
        assert(start + flushed(Seq::<Seq<char>>::empty()) =~= start);
        while i < lines.len()
            invariant
                i <= lines@.len(),
                buf == string_views(lines@),
                lines_view(self.troubleshooting_lines@) == start + flushed(buf.take(i as int)),
                self.subprocess_output_buffer@.len() == 0,
                self.forms == old(self).forms,
                self.active_run == old(self).active_run,
                self.status_message == old(self).status_message,
                self.status_tone == old(self).status_tone,
                self.progress == old(self).progress,
            decreases lines.len() - i,
        {
            assert(buf.take(i + 1).drop_last() =~= buf.take(i as int));
            assert(buf[i as int] == lines@[i as int]@);
            let ghost before = self.troubleshooting_lines@;
            if subprocess_line_is_diagnostic(lines[i].as_str()) {
                self.troubleshooting_lines.push(
                    DiagnosticLine { severity: DiagnosticSeverity::Error, text: lines[i].clone(), continuation: true },
                );
                assert(lines_view(self.troubleshooting_lines@) =~= lines_view(before).push(
                    (DiagnosticSeverity::Error, buf[i as int], true),
                ));
                assert(start + flushed(buf.take(i + 1)) =~= (start + flushed(buf.take(i as int))).push(
                    (DiagnosticSeverity::Error, buf[i as int], true),
                ));
            } else {
                assert(flushed(buf.take(i + 1)) =~= flushed(buf.take(i as int)));
            }
            i += 1;
        }
        assert(buf.take(lines@.len() as int) =~= buf);
        assert(self.buffer() =~= Seq::<Seq<char>>::empty());
    }

    /// True when the troubleshooting view holds an error headline.
    fn has_error_headline(&self) -> (r: bool)
        ensures
            r == spec_has_error_headline(lines_view(self.troubleshooting_lines@)),
    {
        let ghost lv = lines_view(self.troubleshooting_lines@);
        let mut i: usize = 0;
        while i < self.troubleshooting_lines.len()
            invariant
                i <= self.troubleshooting_lines@.len(),
                lv == lines_view(self.troubleshooting_lines@),
                forall|j: int| 0 <= j < i ==> !(!(#[trigger] lv[j]).2 && lv[j].0 == DiagnosticSeverity::Error),
            decreases self.troubleshooting_lines.len() - i,
        {
            assert(lv[i as int] == line_view(self.troubleshooting_lines@[i as int]));
            let line = &self.troubleshooting_lines[i];
            if !line.continuation && line.severity == DiagnosticSeverity::Error {
                return true;
            }
            i += 1;
        }
        false
    }

    /// The text of the first headline, or `Command failed.`.
    fn failure_message(&self) -> (r: String)
        ensures
            r@ == match first_headline(lines_view(self.troubleshooting_lines@)) {
                Some(t) => t,
                None => "Command failed."@,
            },
    {
        let ghost lv = lines_view(self.troubleshooting_lines@);
        let mut i: usize = 0;
        assert(lv.skip(0) =~= lv);
        while i < self.troubleshooting_lines.len()
            invariant
                i <= self.troubleshooting_lines@.len(),
                lv == lines_view(self.troubleshooting_lines@),
                first_headline(lv) == first_headline(lv.skip(i as int)),
            decreases self.troubleshooting_lines.len() - i,
        {
            assert(lv.skip(i as int)[0] == line_view(self.troubleshooting_lines@[i as int]));
            assert(lv.skip(i as int).drop_first() =~= lv.skip(i + 1));
            if !self.troubleshooting_lines[i].continuation {
                return self.troubleshooting_lines[i].text.clone();
            }
            i += 1;
        }
        assert(lv.skip(i as int).len() == 0);
        "Command failed.".to_owned()
    }

    /// Ends the active run with `completion` (see `spec_finish`): on success the held-back
    /// output is dropped and `<label> completed with status success.` reported; on a non-zero
    /// exit or an error the held-back diagnostics are shown, the error added as headline when
    /// there is none yet, and the tone set to failed. The run and its progress are cleared. With
    /// no active run nothing happens.
    pub fn finish_active_run(&mut self, completion: RunCompletion)
        ensures
            old(self).active_run is None ==> *final(self) == *old(self),
            old(self).active_run matches Some(run) ==> finished_as(
                lines_view(old(self).troubleshooting_lines@),
                old(self).buffer(),
                run.label@,
                completion,
                *final(self),
            ),
            final(self).forms == old(self).forms,
    {
        let label = match &self.active_run {
            Some(r) => r.label.clone(),
            None => return,
        };
        match completion {
            RunCompletion::Succeeded(result) => {
                let success = result.exit_code == 0;
                if !success {
                    self.flush_subprocess_output_to_troubleshooting();
                } else {
                    self.subprocess_output_buffer = Vec::new();
                    assert(self.buffer() =~= Seq::<Seq<char>>::empty());
                }
                let message = if success {
                    concat(label.as_str(), " completed with status success.")
                } else {
                    concat(label.as_str(), " completed with status failed.")
                };
                let tone = if success {
                    StatusTone::Success
                } else {
                    StatusTone::Failed
                };
                self.set_status(message, tone);
            },
            RunCompletion::Failed(error) => {
                self.flush_subprocess_output_to_troubleshooting();
                if !self.has_error_headline() {
                    let ghost before = self.troubleshooting_lines@;
                    let ghost e = error@;
                    self.troubleshooting_lines.push(
                        DiagnosticLine { severity: DiagnosticSeverity::Error, text: error, continuation: false },
                    );
                    assert(lines_view(self.troubleshooting_lines@) =~= lines_view(before).push(
                        (DiagnosticSeverity::Error, e, false),
                    ));
                }
                let message = self.failure_message();
                self.set_status(message, StatusTone::Failed);
            },
        }
        self.active_run = None;
        self.progress = None;
    }

    /// One poll of the active run: takes in the output lines `events` that arrived since the
    /// last poll, in order, then ends the run with `completion` when it has finished. With no
    /// active run nothing happens.
    pub fn poll_active_run(&mut self, events: Vec<OutputEvent>, completion: Option<RunCompletion>)
        ensures
            old(self).active_run is None ==> *final(self) == *old(self),
            old(self).active_run matches Some(run) ==> {
                let (lines, buffer) = absorb_all(lines_view(old(self).troubleshooting_lines@), old(self).buffer(), events@);
                match completion {
                    None => {
                        &&& lines_view(final(self).troubleshooting_lines@) == lines
                        &&& final(self).buffer() == buffer
                        &&& final(self).active_run == old(self).active_run
                        &&& final(self).status_message == old(self).status_message
                        &&& final(self).status_tone == old(self).status_tone
                    },
                    Some(c) => finished_as(lines, buffer, run.label@, c, *final(self)),
                }
            },
            final(self).forms == old(self).forms,
    {
        if self.active_run.is_none() {
            return;
        }
        let ghost start_lines = lines_view(self.troubleshooting_lines@);
        let ghost start_buf = self.buffer();
        let ghost all = events@;
        let ghost run = self.active_run;
        let n = events.len();
        let mut rest = events;
        let mut k: usize = 0;
        while rest.len() > 0
            invariant
                k + rest@.len() == n,
                n == all.len(),
                rest@ == all.skip(k as int),
                (lines_view(self.troubleshooting_lines@), self.buffer()) == absorb_all(
                    start_lines,
                    start_buf,
                    all.take(k as int),
                ),
                self.active_run == run,
                self.status_message == old(self).status_message,
                self.status_tone == old(self).status_tone,
                self.forms == old(self).forms,
            decreases rest.len(),
        {
            let event = rest.remove(0);
            let ghost e = event;
            assert(e == all[k as int]);
            self.absorb_output_event(event);
            proof {
                assert(all.take(k + 1).drop_last() =~= all.take(k as int));
                assert(all.take(k + 1).last() == all[k as int]);
            }
            k = k + 1;
            assert(rest@ =~= all.skip(k as int));
        }
        assert(all.take(k as int) =~= all);
        match completion {
            Some(c) => self.finish_active_run(c),
            None => {},
        }
    }

    /// Shows a progress update: ignored when no run is active, unless it reports completion.
    pub fn apply_progress_snapshot(&mut self, snapshot: ProgressInfo)
        ensures
            if old(self).active_run is None && snapshot.phase != RunPhase::Complete {
                final(self).progress == old(self).progress
            } else {
                final(self).progress == Some(snapshot)
            },
            *final(self) == (AppState { progress: final(self).progress, ..*old(self) }),
    {
        if self.active_run.is_none() && snapshot.phase != RunPhase::Complete {
            return;
        }
        self.progress = Some(snapshot);
    }

    /// Asks to cancel the active run: gives `true` when the host should send the cancellation
    /// (a cancelable run is active); otherwise reports why not.
    pub fn cancel_active(&mut self) -> (r: bool)
        ensures
            r == (old(self).active_run matches Some(run) && run.cancelable),
            old(self).active_run is None ==> final(self).status_message@ == "No active command to cancel."@
                && final(self).status_tone == StatusTone::Warning,
            old(self).active_run matches Some(run) && !run.cancelable ==> final(self).status_message@
                == "The active command cannot be canceled safely."@ && final(self).status_tone == StatusTone::Warning,
            r ==> final(self).status_message == old(self).status_message && final(self).status_tone
                == old(self).status_tone,
            final(self).active_run == old(self).active_run,
    {
        match &self.active_run {
            None => {
                self.set_status("No active command to cancel.".to_owned(), StatusTone::Warning);
                false
            },
            Some(run) => {
                if !run.cancelable {
                    self.set_status("The active command cannot be canceled safely.".to_owned(), StatusTone::Warning);
                    false
                } else {
                    true
                }
            },
        }
    }

    /// Reports what became of a cancellation request: sent to the active subprocess, or no
    /// cancelable subprocess running yet.
    pub fn report_cancel(&mut self, sent: bool)
        ensures
            final(self).status_message@ == if sent {
                "Sent cancellation request to the active subprocess."@
            } else {
                "The active command is running, but no cancelable subprocess is active yet."@
            },
            final(self).status_tone == StatusTone::Warning,
            final(self).active_run == old(self).active_run,
    {
        if sent {
            self.set_status("Sent cancellation request to the active subprocess.".to_owned(), StatusTone::Warning);
        } else {
            self.set_status(
                "The active command is running, but no cancelable subprocess is active yet.".to_owned(),
                StatusTone::Warning,
            );
        }
    }

    /// Takes the activation prompt when the operator confirms it: the drift to apply (nothing
    /// when there is no prompt).
    pub fn apply_activation_confirm(&mut self) -> (r: Option<Vec<ConfigDriftItem>>)
        ensures
            final(self).activation_prompt is None,
            match old(self).activation_prompt {
                Some(p) => r == Some(p.drifts),
                None => r is None,
            },
            *final(self) == (AppState { activation_prompt: None, ..*old(self) }),
    {
        match self.activation_prompt.take() {
            Some(prompt) => Some(prompt.drifts),
            None => None,
        }
    }

    /// Reports that the confirmed drift was applied.
    pub fn activation_applied(&mut self)
        ensures
            final(self).status_message@ == "Configuration drift applied from dhara.config.toml."@,
            final(self).status_tone == StatusTone::Success,
    {
        self.set_status("Configuration drift applied from dhara.config.toml.".to_owned(), StatusTone::Success);
    }

    /// The operator declined the activation: the prompt is closed and the session ends.
    pub fn decline_activation(&mut self)
        ensures
            final(self).activation_prompt is None,
            final(self).should_quit,
            final(self).status_message@ == "Activation declined. Update manifests manually or relaunch with --yes."@,
            final(self).status_tone == StatusTone::Warning,
    {
        self.activation_prompt = None;
        self.should_quit = true;
        self.set_status(
            "Activation declined. Update manifests manually or relaunch with --yes.".to_owned(),
            StatusTone::Warning,
        );
    }

    /// Forgets the rendered system configuration so it is read again.
    pub fn invalidate_system_configs(&mut self)
        ensures
            final(self).system_configs_text is None,
            final(self).status_message == old(self).status_message,
    {
        self.system_configs_text = None;
    }
}

/// The command `id` of `registry`.
fn find_command<'a>(registry: &'a CommandRegistry, id: &str) -> (r: Option<&'a CommandSpec>)
    ensures
        match command_index(registry.command_list(), id@) {
            Some(k) => r == Some(&registry.command_list()[k]),
            None => r is None,
        },
{
    let ghost ids = command_ids(registry.command_list());
    let ghost cmds = registry.command_list();
    let mut i: usize = 0;
    let cmd_vec = registry.command_slice();
    while i < cmd_vec.len()
        invariant
            i <= cmd_vec@.len(),
            cmd_vec@ == cmds,
            cmds == registry.command_list(),
            ids == command_ids(cmds),
            forall|j: int| 0 <= j < i ==> #[trigger] ids[j] != id@,
        decreases cmd_vec.len() - i,
    {
        assert(ids[i as int] == cmd_vec@[i as int].id@);
        if str_eq(cmd_vec[i].id, id) {
            proof {
                assert(ids.len() == cmd_vec@.len());
                crate::text::lemma_position_is(ids, id@, i as int);
            }
            return Some(&cmd_vec[i]);
        }
        i += 1;
    }
    proof {
        crate::text::lemma_position_is(ids, id@, cmd_vec@.len() as int);
    }
    None
}

/// The command found for an id has that id.
proof fn lemma_command_index(cmds: Seq<CommandSpec>, id: Seq<char>)
    ensures
        command_index(cmds, id) matches Some(k) ==> 0 <= k < cmds.len() && cmds[k].id@ == id,
{
    crate::text::lemma_position_facts(command_ids(cmds), id);
}

/// With unique ids, the form found at `i` is the one `form_index` names.
proof fn lemma_form_index(forms: Seq<CommandForm>, id: Seq<char>, i: int)
    requires
        forms_unique(forms),
        0 <= i < forms.len(),
        forms[i].command_id@ == id,
    ensures
        form_index(forms, id) == Some(i),
{
    let k = choose|k: int| 0 <= k < forms.len() && #[trigger] forms[k].command_id@ == id;
    if k != i {
        assert(forms[k].command_id@ != forms[i].command_id@);
    }
}

/// True when a trimmed subprocess line is progress noise (see `spec_is_progress`).
pub fn is_subprocess_progress_line(line: &str) -> (r: bool)
    ensures
        r == spec_is_progress(line@),
{
    starts_with(line, "Finished `") || starts_with(line, "Generated ") || starts_with(line, "Compiling ")
        || starts_with(line, "Checking ") || starts_with(line, "Documenting ") || starts_with(
        line,
        "Running unittests ",
    ) || starts_with(line, "Running tests") || starts_with(line, "Doc-tests ") || starts_with(line, "> ")
        || starts_with(line, "     Running ") || (starts_with(line, "test result:") && contains(line, "ok."))
        || (starts_with(line, "running ") && ends_with(line, " tests"))
}

/// Returns true when a subprocess line is an actionable warning/error, not routine progress
/// noise (see `spec_is_diagnostic`).
pub fn subprocess_line_is_diagnostic(line: &str) -> (r: bool)
    ensures
        r == spec_is_diagnostic(line@),
{
    let trimmed = trim(line);
    if trimmed.as_str().unicode_len() == 0 {
        return false;
    }
    !is_subprocess_progress_line(trimmed.as_str())
}

/// Held-back output that is only progress noise adds nothing when it is flushed.
pub proof fn law_progress_noise_never_shown(buffer: Seq<Seq<char>>)
    requires
        forall|i: int| 0 <= i < buffer.len() ==> spec_is_progress(trim_seq(#[trigger] buffer[i])),
    ensures
        flushed(buffer).len() == 0,
    decreases buffer.len(),
{
    if buffer.len() > 0 {
        assert forall|i: int| 0 <= i < buffer.drop_last().len() implies spec_is_progress(
            trim_seq(#[trigger] buffer.drop_last()[i]),
        ) by {
            assert(buffer.drop_last()[i] == buffer[i]);
        }
        law_progress_noise_never_shown(buffer.drop_last());
        assert(spec_is_progress(trim_seq(buffer[buffer.len() - 1])));
    }
}

/// Flushed lines are all error details.
pub proof fn law_flushed_lines_are_details(buffer: Seq<Seq<char>>)
    ensures
        forall|i: int| 0 <= i < flushed(buffer).len() ==> (#[trigger] flushed(buffer)[i]).2 && flushed(buffer)[i].0
            == DiagnosticSeverity::Error,
    decreases buffer.len(),
{
    if buffer.len() > 0 {
        law_flushed_lines_are_details(buffer.drop_last());
    }
}

/// Where the path component ending at `end` starts: just after the last `/` before `end`.
pub open spec fn segment_start(p: Seq<char>, end: int) -> int
    decreases end,
{
    if end <= 0 {
        0
    } else if p[end - 1] == '/' {
        end
    } else {
        segment_start(p, end - 1)
    }
}

/// The last normal component of `p.take(end)` (`Path::file_name` with `/` separators):
/// trailing separators and `.` components are skipped; `None` for a root, an empty path or a
/// path ending in `..`.
pub open spec fn file_name_before(p: Seq<char>, end: int) -> Option<Seq<char>>
    decreases end,
{
    if end <= 0 || end > p.len() {
        None
    } else if p[end - 1] == '/' {
        file_name_before(p, end - 1)
    } else {
        let start = segment_start(p, end);
        let seg = p.subrange(start, end);
        if seg == "."@ {
            if 0 <= start < end {
                file_name_before(p, start)
            } else {
                None
            }
        } else if seg == ".."@ {
            None
        } else {
            Some(seg)
        }
    }
}

/// The label shown for a repository at `path`: its last component, or the whole path when it
/// has none.
pub open spec fn spec_repository_label(path: Seq<char>) -> Seq<char> {
    match file_name_before(path, path.len() as int) {
        Some(name) => if name.len() > 0 {
            name
        } else {
            path
        },
        None => path,
    }
}

proof fn lemma_segment_start(p: Seq<char>, end: int)
    requires
        0 <= end <= p.len(),
    ensures
        0 <= segment_start(p, end) <= end,
        forall|k: int| segment_start(p, end) <= k < end ==> p[k] != '/',
        segment_start(p, end) > 0 ==> p[segment_start(p, end) - 1] == '/',
    decreases end,
{
    if end > 0 && p[end - 1] != '/' {
        lemma_segment_start(p, end - 1);
    }
}

/// The last normal component of `path` (see `file_name_before`).
#[verifier::spinoff_prover]
pub fn path_file_name(path: &str) -> (r: Option<String>)
    ensures
        match r {
            Some(name) => file_name_before(path@, path@.len() as int) == Some(name@),
            None => file_name_before(path@, path@.len() as int) is None,
        },
{
    let v = crate::text::chars_of(path);
    let mut end: usize = v.len();
    loop
        invariant
            end <= v@.len(),
            v@ == path@,
            file_name_before(v@, v@.len() as int) == file_name_before(v@, end as int),
        decreases end,
    {
        proof {
            reveal_strlit(".");
            reveal_strlit("..");
        }
        if end == 0 {
            return None;
        }
        if v[end - 1] == '/' {
            end -= 1;
            continue;
        }
        let mut start: usize = end;
        while start > 0 && v[start - 1] != '/'
            invariant
                start <= end <= v@.len(),
                segment_start(v@, end as int) == segment_start(v@, start as int),
                start < end ==> v@[end - 1] != '/',
                forall|k: int| start <= k < end ==> v@[k] != '/',
            decreases start,
        {
            start -= 1;
        }
        proof {
            lemma_segment_start(v@, end as int);
        }
        let len = end - start;
        if len == 1 && v[start] == '.' {
            assert(v@.subrange(start as int, end as int) =~= "."@);
            if start == 0 {
                return None;
            }
            end = start;
            continue;
        }
        if len == 2 && v[start] == '.' && v[start + 1] == '.' {
            assert(v@.subrange(start as int, end as int) =~= ".."@);
            return None;
        }
        proof {
            if v@.subrange(start as int, end as int) == "."@ {
                assert(v@.subrange(start as int, end as int)[0] == '.');
            }
            if v@.subrange(start as int, end as int) == ".."@ {
                assert(v@.subrange(start as int, end as int)[0] == '.');
                assert(v@.subrange(start as int, end as int)[1] == '.');
            }
        }
        return Some(crate::text::string_from_range(&v, start, end));
    }
}

impl AppState {
    /// The label of the repository at `path` (see `spec_repository_label`).
    pub fn repository_label_from_path(path: &str) -> (r: String)
        ensures
            r@ == spec_repository_label(path@),
    {
        match path_file_name(path) {
            Some(name) => if name.as_str().unicode_len() > 0 {
                name
            } else {
                path.to_owned()
            },
            None => path.to_owned(),
        }
    }
}

} // verus!
