//! The command catalogue shared by the Direct CLI help and the TUI: sections, command
//! specifications with their option schemas, and the registry that resolves and runs them.
use std::sync::Arc;

use vstd::prelude::*;

use crate::context::{CommandResult, ToolContext};
use crate::text::{
    concat, join, join_seq, join_strings, lemma_seq_lt_irreflexive,
    lemma_seq_lt_total, lemma_seq_lt_transitive, pad_right, pad_right_seq, seq_lt, str_eq, str_lt,
};

verus! {

/// A group of commands with its own prompt and help heading.
#[derive(Debug, Clone, Copy, PartialEq, Eq)]
pub struct SectionSpec {
    pub name: &'static str,
    pub prompt: &'static str,
    pub summary: &'static str,
}

/// How a form field is serialized onto the command line.
#[derive(Debug, Clone, PartialEq, Eq)]
pub enum ArgBinding {
    Positional,
    FlagValue(&'static str),
    Switch(&'static str),
}

/// One selectable workflow preset.
#[derive(Debug, Clone, Copy, PartialEq, Eq)]
pub struct PresetOption {
    pub id: &'static str,
    pub label: &'static str,
}

/// The kind of control a field is edited with.
#[derive(Debug, Clone, PartialEq, Eq)]
pub enum FieldKind {
    Text,
    Path,
    BrowsablePath { dialog_title: &'static str },
    Boolean,
    /// Legacy select; rendered as a combo in the TUI.
    Select(&'static [&'static str]),
    /// BIOS-style cycle control in the TUI.
    Combo(&'static [&'static str]),
    /// Mutually exclusive options displayed as `[*]` / `[ ]`.
    Radio(&'static [&'static str]),
    /// TUI-only preset picker; values are not serialized to CLI.
    Preset(&'static [PresetOption]),
}

/// Schema of one command option.
#[derive(Debug, Clone, PartialEq, Eq)]
pub struct FieldSpec {
    pub key: &'static str,
    pub label: &'static str,
    pub help: &'static str,
    pub kind: FieldKind,
    pub binding: ArgBinding,
    pub required: bool,
    pub default_value: Option<&'static str>,
    /// Optional TUI-only default; falls back to `default_value`.
    pub tui_default_value: Option<&'static str>,
    /// Visual grouping key for bordered button groups in the Options tab.
    pub group: Option<&'static str>,
    /// When true, a checked boolean means *include* the step (the skip flag is emitted when
    /// unchecked).
    pub invert_switch: bool,
    /// When true, the field is never serialized to arguments.
    pub tui_only: bool,
    /// Optional inner text slot width of a combo control in the TUI.
    pub tui_combo_width: Option<u16>,
}

/// The default a field starts from: the TUI default when running the TUI and one is set,
/// otherwise the CLI default.
pub open spec fn spec_effective_default(field: FieldSpec, tui: bool) -> Option<&'static str> {
    if tui && field.tui_default_value.is_some() {
        field.tui_default_value
    } else {
        field.default_value
    }
}

impl FieldSpec {
    /// A plain switch field.
    pub fn boolean(
        key: &'static str,
        label: &'static str,
        help: &'static str,
        flag: &'static str,
        default_value: Option<&'static str>,
    ) -> (r: Self)
        ensures
            r == (FieldSpec {
                key,
                label,
                help,
                kind: FieldKind::Boolean,
                binding: ArgBinding::Switch(flag),
                required: false,
                default_value,
                tui_default_value: None,
                group: None,
                invert_switch: false,
                tui_only: false,
                tui_combo_width: None,
            }),
    {
        FieldSpec {
            key,
            label,
            help,
            kind: FieldKind::Boolean,
            binding: ArgBinding::Switch(flag),
            required: false,
            default_value,
            tui_default_value: None,
            group: None,
            invert_switch: false,
            tui_only: false,
            tui_combo_width: None,
        }
    }

    /// A cycling choice serialized as `flag value`.
    pub fn combo(
        key: &'static str,
        label: &'static str,
        help: &'static str,
        flag: &'static str,
        options: &'static [&'static str],
        default_value: Option<&'static str>,
    ) -> (r: Self)
        ensures
            r == (FieldSpec {
                key,
                label,
                help,
                kind: FieldKind::Combo(options),
                binding: ArgBinding::FlagValue(flag),
                required: false,
                default_value,
                tui_default_value: None,
                group: None,
                invert_switch: false,
                tui_only: false,
                tui_combo_width: None,
            }),
    {
        FieldSpec {
            key,
            label,
            help,
            kind: FieldKind::Combo(options),
            binding: ArgBinding::FlagValue(flag),
            required: false,
            default_value,
            tui_default_value: None,
            group: None,
            invert_switch: false,
            tui_only: false,
            tui_combo_width: None,
        }
    }

    /// The default this field starts from (see `spec_effective_default`).
    pub fn effective_default(&self, tui: bool) -> (r: Option<&'static str>)
        ensures
            r == spec_effective_default(*self, tui),
    {
        if tui {
            match self.tui_default_value {
                Some(v) => Some(v),
                None => self.default_value,
            }
        } else {
            self.default_value
        }
    }
}

/// Description and option schema of a command.
#[derive(Debug, Clone, PartialEq, Eq)]
pub struct CommandUi {
    pub description: &'static str,
    pub fields: Vec<FieldSpec>,
    pub quick_run: bool,
    pub supports_cancel: bool,
}

impl CommandUi {
    /// A command UI with a description and no options.
    pub fn empty(description: &'static str) -> (r: Self)
        ensures
            r.description == description,
            r.fields@.len() == 0,
            !r.quick_run,
            !r.supports_cancel,
    {
        CommandUi { description, fields: Vec::new(), quick_run: false, supports_cancel: false }
    }
}

/// The instructions behind a command; products and tests implement it.
pub trait CommandHandler: Send + Sync {
    /// Whether running the handler in `context` on the words `args` may give `result`; a handler
    /// that says nothing of its results may give any.
    open spec fn outcome(&self, context: ToolContext, args: Seq<Seq<char>>, result: Result<CommandResult, String>) -> bool {
        true
    }

    /// Runs the command on the words that follow its path (see `outcome`).
    fn run(&self, context: &ToolContext, args: &[String]) -> (r: Result<CommandResult, String>)
        ensures
            self.outcome(*context, string_views(args@), r),
    ;
}

/// Unified command specification shared by CLI help and the TUI.
#[derive(Clone)]
pub struct CommandSpec {
    pub id: &'static str,
    pub path: &'static [&'static str],
    pub summary: &'static str,
    pub args_summary: &'static str,
    pub section: &'static str,
    pub ui: CommandUi,
    /// Instruction set; `None` means the command has no action yet.
    pub handler: Option<Arc<dyn CommandHandler>>,
    /// Explicit disable even when a handler is present.
    pub is_disabled: bool,
    /// Operator-facing reason when disabled; preferred over default messages.
    pub disabled_reason: Option<&'static str>,
}

/// Character views of a list of string slices.
pub open spec fn str_views(xs: Seq<&str>) -> Seq<Seq<char>> {
    xs.map_values(|x: &str| x@)
}

/// Character views of a list of owned strings.
pub open spec fn string_views(xs: Seq<String>) -> Seq<Seq<char>> {
    xs.map_values(|x: String| x@)
}

/// Viewing a list and then pushing is viewing the pushed list.
pub proof fn lemma_string_views_push(xs: Seq<String>, x: String)
    ensures
        string_views(xs.push(x)) == string_views(xs).push(x@),
{
    assert(string_views(xs.push(x)) =~= string_views(xs).push(x@));
}

/// The command's path words joined by single spaces.
pub open spec fn spec_path_string(c: CommandSpec) -> Seq<char> {
    join_seq(str_views(c.path@), " "@)
}

/// A command counts as disabled when switched off or when no handler is registered.
pub open spec fn spec_disabled(c: CommandSpec) -> bool {
    c.is_disabled || c.handler.is_none()
}

/// The reason shown for a disabled command.
pub open spec fn spec_disable_message(c: CommandSpec) -> Seq<char> {
    match c.disabled_reason {
        Some(reason) => reason@,
        None => if c.handler.is_none() {
            "not implemented by this extension"@
        } else {
            "disabled by the developers"@
        },
    }
}

impl CommandSpec {
    /// The path words joined by spaces, e.g. `config show`.
    pub fn path_string(&self) -> (r: String)
        ensures
            r@ == spec_path_string(*self),
    {
        join(self.path, " ")
    }

    /// True when manually disabled or when no instruction set is registered.
    pub fn is_effectively_disabled(&self) -> (r: bool)
        ensures
            r == spec_disabled(*self),
    {
        self.is_disabled || self.handler.is_none()
    }

    /// Human-readable disable reason for help, Info, and execute warnings.
    pub fn disable_message(&self) -> (r: &'static str)
        ensures
            r@ == spec_disable_message(*self),
    {
        if let Some(reason) = self.disabled_reason {
            return reason;
        }
        if self.handler.is_none() {
            return "not implemented by this extension";
        }
        "disabled by the developers"
    }
}

/// The values behind a list of references.
pub open spec fn deref_all<T>(xs: Seq<&T>) -> Seq<T> {
    xs.map_values(|x: &T| *x)
}

/// True when the words of `path` are the first words of `args`.
pub open spec fn path_matches(path: Seq<Seq<char>>, args: Seq<Seq<char>>) -> bool {
    &&& path.len() <= args.len()
    &&& forall|i: int| 0 <= i < path.len() ==> #[trigger] path[i] == args[i]
}

/// True when command `c` matches the start of `args`.
pub open spec fn command_matches(c: CommandSpec, args: Seq<Seq<char>>) -> bool {
    path_matches(str_views(c.path@), args)
}

/// Index `k` is what `resolve` picks for `args`: a matching command whose path is the longest
/// among the matching ones, the last of them when several share that length.
pub open spec fn is_resolution(cmds: Seq<CommandSpec>, args: Seq<Seq<char>>, k: int) -> bool {
    &&& 0 <= k < cmds.len()
    &&& command_matches(cmds[k], args)
    &&& forall|j: int|
        0 <= j < cmds.len() && command_matches(#[trigger] cmds[j], args) ==> cmds[j].path@.len()
            <= cmds[k].path@.len()
    &&& forall|j: int|
        k < j < cmds.len() && command_matches(#[trigger] cmds[j], args) ==> cmds[j].path@.len()
            < cmds[k].path@.len()
}

/// A command run by its path followed by any arguments resolves to that command, when no other
/// command's path begins with its path: this is how a run started from a form reaches the same
/// command the command line would, with the form's words as its arguments.
pub proof fn law_path_then_arguments_resolves(cmds: Seq<CommandSpec>, k: int, args: Seq<Seq<char>>)
    requires
        0 <= k < cmds.len(),
        forall|j: int|
            0 <= j < cmds.len() && j != k ==> !path_matches(str_views(cmds[k].path@), #[trigger] str_views(cmds[j].path@)),
    ensures
        is_resolution(cmds, str_views(cmds[k].path@) + args, k),
{
    let p = str_views(cmds[k].path@);
    let a = p + args;
    assert forall|j: int| 0 <= j < cmds.len() && command_matches(#[trigger] cmds[j], a) implies cmds[j].path@.len()
        <= cmds[k].path@.len() && (j != k ==> cmds[j].path@.len() < cmds[k].path@.len()) by {
        if j != k && cmds[j].path@.len() >= cmds[k].path@.len() {
            let q = str_views(cmds[j].path@);
            assert forall|i: int| 0 <= i < p.len() implies #[trigger] p[i] == q[i] by {
                assert(q[i] == a[i]);
                assert(a[i] == p[i]);
            }
            assert(path_matches(p, q));
        }
    }
}

/// No command matches the start of `args`.
pub open spec fn no_match(cmds: Seq<CommandSpec>, args: Seq<Seq<char>>) -> bool {
    forall|j: int| 0 <= j < cmds.len() ==> !command_matches(#[trigger] cmds[j], args)
}

/// Section names strictly increase (so they are unique), as in a map keyed by name.
pub open spec fn sections_sorted(s: Seq<SectionSpec>) -> bool {
    forall|i: int, j: int| 0 <= i < j < s.len() ==> seq_lt(#[trigger] s[i].name@, #[trigger] s[j].name@)
}

/// No two commands share an id.
pub open spec fn ids_unique(c: Seq<CommandSpec>) -> bool {
    forall|i: int, j: int| 0 <= i < c.len() && 0 <= j < c.len() && i != j ==> #[trigger] c[i].id@ != #[trigger] c[j].id@
}

/// True when `c` holds a command with the id `id`.
pub open spec fn has_id(c: Seq<CommandSpec>, id: Seq<char>) -> bool {
    exists|i: int| 0 <= i < c.len() && #[trigger] c[i].id@ == id
}

/// What `upsert_command` makes of the command list `old`: the first command with the same id
/// is replaced in place, or the new command is appended.
pub open spec fn spec_upsert(old: Seq<CommandSpec>, command: CommandSpec) -> Seq<CommandSpec>
    decreases old.len(),
{
    if old.len() == 0 {
        seq![command]
    } else if old[0].id@ == command.id@ {
        old.update(0, command)
    } else {
        seq![old[0]] + spec_upsert(old.drop_first(), command)
    }
}

/// Upserting a command whose id is new appends it.
pub proof fn lemma_upsert_new_id_appends(old: Seq<CommandSpec>, command: CommandSpec)
    ensures
        !has_id(old, command.id@) ==> spec_upsert(old, command) == old.push(command),
    decreases old.len(),
{
    if old.len() > 0 && !has_id(old, command.id@) {
        assert(old[0].id@ != command.id@);
        assert(!has_id(old.drop_first(), command.id@)) by {
            if has_id(old.drop_first(), command.id@) {
                let i = choose|i: int| 0 <= i < old.drop_first().len() && #[trigger] old.drop_first()[i].id@ == command.id@;
                assert(old[i + 1].id@ == command.id@);
            }
        }
        lemma_upsert_new_id_appends(old.drop_first(), command);
        assert(seq![old[0]] + old.drop_first().push(command) =~= old.push(command));
    } else if old.len() == 0 {
        assert(seq![command] =~= old.push(command));
    }
}

/// What `add_section` makes of a name-sorted section list: the section with the same name
/// replaced, or the new section inserted at its place in name order.
pub open spec fn spec_add_section(old: Seq<SectionSpec>, s: SectionSpec) -> Seq<SectionSpec>
    decreases old.len(),
{
    if old.len() == 0 {
        seq![s]
    } else if old[0].name@ == s.name@ {
        old.update(0, s)
    } else if seq_lt(old[0].name@, s.name@) {
        seq![old[0]] + spec_add_section(old.drop_first(), s)
    } else {
        seq![s] + old
    }
}

/// Compile-time product extension that registers or upserts commands into the registry.
pub trait Extension {
    /// Registering the extension into the registry `before` may leave the registry `after`.
    spec fn registered(&self, before: CommandRegistry, after: CommandRegistry) -> bool;

    /// Registers the extension's sections and commands (see `registered`); the registry stays
    /// well formed.
    fn register(&self, registry: &mut CommandRegistry)
        requires
            old(registry).wf(),
        ensures
            final(registry).wf(),
            self.registered(*old(registry), *final(registry)),
    ;
}

/// The command catalogue: sections keyed and ordered by name, and commands keyed by id in
/// registration order.
#[derive(Clone)]
pub struct CommandRegistry {
    sections: Vec<SectionSpec>,
    commands: Vec<CommandSpec>,
}

impl CommandRegistry {
    /// The sections, ordered by name.
    pub closed spec fn section_list(&self) -> Seq<SectionSpec> {
        self.sections@
    }

    /// The commands, in registration order.
    pub closed spec fn command_list(&self) -> Seq<CommandSpec> {
        self.commands@
    }

    /// Sections sorted by unique name.
    pub open spec fn wf(&self) -> bool {
        sections_sorted(self.section_list())
    }

    /// An empty registry.
    pub fn new() -> (r: Self)
        ensures
            r.wf(),
            r.section_list().len() == 0,
            r.command_list().len() == 0,
    {
        CommandRegistry { sections: Vec::new(), commands: Vec::new() }
    }

    /// Adds `section` under its name, replacing a section of the same name.
    pub fn add_section(&mut self, section: SectionSpec)
        requires
            old(self).wf(),
        ensures
            final(self).wf(),
            final(self).section_list() == spec_add_section(old(self).section_list(), section),
            final(self).command_list() == old(self).command_list(),
    {
        let ghost old_s = self.sections@;
        let n = self.sections.len();
        let mut p: usize = 0;
        while p < n && str_lt(self.sections[p].name, section.name)
            invariant
                p <= n == self.sections@.len(),
                self.sections@ == old_s,
                old_s == old(self).sections@,
                self.commands@ == old(self).commands@,
                forall|i: int| 0 <= i < p ==> seq_lt(#[trigger] old_s[i].name@, section.name@),
            decreases n - p,
        {
            p += 1;
        }
        proof {
            lemma_add_section_position(old_s, section, p as int);
        }
        if p < n && str_eq(self.sections[p].name, section.name) {
            self.sections.set(p, section);
        } else {
            self.sections.insert(p, section);
        }
        proof {
            lemma_add_section_sorted(old_s, section, p as int);
        }
    }

    /// Appends `command` at the end of the command list, which grows by one; the sections are
    /// unchanged. Nothing is replaced: prefer `upsert_command` when an extension may replace a
    /// base stub, since only upserting keeps command ids unique.
    pub fn add_command(&mut self, command: CommandSpec)
        requires
            old(self).wf(),
        ensures
            final(self).wf(),
            final(self).command_list() == old(self).command_list().push(command),
            final(self).section_list() == old(self).section_list(),
    {
        self.commands.push(command);
    }

    /// Inserts or replaces a command by id (later registration wins): the first command with
    /// the same id is replaced in place, or the command is appended. Unique ids stay unique.
    pub fn upsert_command(&mut self, command: CommandSpec)
        requires
            old(self).wf(),
        ensures
            final(self).wf(),
            final(self).command_list() == spec_upsert(old(self).command_list(), command),
            ids_unique(old(self).command_list()) ==> ids_unique(final(self).command_list()),
            final(self).section_list() == old(self).section_list(),
    {
        let ghost old_c = self.commands@;
        proof {
            if ids_unique(old_c) {
                lemma_upsert_keeps_ids_unique(old_c, command);
            }
        }
        let n = self.commands.len();
        let mut i: usize = 0;
        while i < n
            invariant
                i <= n == self.commands@.len(),
                self.commands@ == old_c,
                old_c == old(self).commands@,
                self.sections@ == old(self).sections@,
                sections_sorted(old(self).sections@),
                forall|j: int| 0 <= j < i ==> #[trigger] old_c[j].id@ != command.id@,
            decreases n - i,
        {
            if str_eq(self.commands[i].id, command.id) {
                proof {
                    lemma_upsert_at(old_c, command, i as int);
                }
                self.commands.set(i, command);
                return;
            }
            i += 1;
        }
        proof {
            lemma_upsert_at(old_c, command, n as int);
        }
        self.commands.push(command);
    }

    /// The commands in registration order, as a slice.
    pub(crate) fn command_slice(&self) -> (r: &[CommandSpec])
        ensures
            r@ == self.command_list(),
    {
        self.commands.as_slice()
    }

    /// The sections in name order.
    pub fn sections(&self) -> (r: std::slice::Iter<'_, SectionSpec>)
        ensures
            vstd::std_specs::slice::into_iter_elts(r) == self.section_list(),
    {
        self.sections.as_slice().iter()
    }

    /// The commands in registration order.
    pub fn commands(&self) -> (r: std::slice::Iter<'_, CommandSpec>)
        ensures
            vstd::std_specs::slice::into_iter_elts(r) == self.command_list(),
    {
        self.commands.as_slice().iter()
    }

    /// The commands of `section`, in registration order.
    pub fn commands_for_section(&self, section: &'static str) -> (r: Vec<&CommandSpec>)
        ensures
            deref_all(r@) == self.command_list().filter(|c: CommandSpec| c.section@ == section@),
    {
        let ghost pred = |c: CommandSpec| c.section@ == section@;
        let mut r: Vec<&CommandSpec> = Vec::new();
        let n = self.commands.len();
        let mut i: usize = 0;
        while i < n
            invariant
                i <= n == self.commands@.len(),
                pred == (|c: CommandSpec| c.section@ == section@),
                deref_all(r@) == self.commands@.take(i as int).filter(pred),
            decreases n - i,
        {
            proof {
                reveal_with_fuel(Seq::filter, 1);
                assert(self.commands@.take(i + 1).drop_last() =~= self.commands@.take(i as int));
            }
            if str_eq(self.commands[i].section, section) {
                r.push(&self.commands[i]);
                assert(deref_all(r@) =~= deref_all(r@.drop_last()).push(self.commands@[i as int]));
            }
            i += 1;
        }
        assert(self.commands@.take(n as int) =~= self.commands@);
        r
    }

    /// True when command `i` matches the start of `args`.
    fn matches_at(&self, i: usize, args: &[String]) -> (r: bool)
        requires
            i < self.command_list().len(),
        ensures
            r == command_matches(self.command_list()[i as int], string_views(args@)),
    {
        let path = self.commands[i].path;
        if path.len() > args.len() {
            return false;
        }
        let mut k: usize = 0;
        while k < path.len()
            invariant
                path == self.commands@[i as int].path,
                path@.len() <= args@.len(),
                k <= path@.len(),
                forall|m: int| 0 <= m < k ==> str_views(path@)[m] == string_views(args@)[m],
            decreases path.len() - k,
        {
            if !str_eq(path[k], args[k].as_str()) {
                assert(str_views(path@)[k as int] != string_views(args@)[k as int]);
                return false;
            }
            k += 1;
        }
        true
    }

    /// The index of the command `resolve` picks for `args` (see `is_resolution`).
    pub fn resolve_index(&self, args: &[String]) -> (r: Option<usize>)
        ensures
            match r {
                Some(k) => is_resolution(self.command_list(), string_views(args@), k as int),
                None => no_match(self.command_list(), string_views(args@)),
            },
    {
        let ghost cmds = self.commands@;
        let ghost a = string_views(args@);
        let n = self.commands.len();
        let mut best: Option<usize> = None;
        let mut i: usize = 0;
        while i < n
            invariant
                i <= n == cmds.len(),
                cmds == self.commands@,
                a == string_views(args@),
                match best {
                    Some(k) => {
                        &&& k < i
                        &&& command_matches(cmds[k as int], a)
                        &&& forall|j: int|
                            0 <= j < i && command_matches(#[trigger] cmds[j], a) ==> cmds[j].path@.len()
                                <= cmds[k as int].path@.len()
                        &&& forall|j: int|
                            k < j < i && command_matches(#[trigger] cmds[j], a) ==> cmds[j].path@.len()
                                < cmds[k as int].path@.len()
                    },
                    None => forall|j: int| 0 <= j < i ==> !command_matches(#[trigger] cmds[j], a),
                },
            decreases n - i,
        {
            if self.matches_at(i, args) {
                match best {
                    Some(k) => {
                        if self.commands[i].path.len() >= self.commands[k].path.len() {
                            best = Some(i);
                        }
                    },
                    None => {
                        best = Some(i);
                    },
                }
            }
            i += 1;
        }
        best
    }

    /// The command whose path is the longest match for the start of `args`, with the words
    /// that follow its path.
    pub fn resolve<'a>(&'a self, args: &'a [String]) -> (r: Option<(&'a CommandSpec, &'a [String])>)
        ensures
            match r {
                Some((c, rest)) => exists|k: int|
                    is_resolution(self.command_list(), string_views(args@), k) && *c
                        == self.command_list()[k] && rest@ == args@.skip(
                        c.path@.len() as int,
                    ),
                None => no_match(self.command_list(), string_views(args@)),
            },
    {
        match self.resolve_index(args) {
            Some(k) => {
                let c = &self.commands[k];
                let rest = vstd::slice::slice_subrange(args, c.path.len(), args.len());
                assert(rest@ =~= args@.skip(c.path@.len() as int));
                Some((c, rest))
            },
            None => None,
        }
    }

    /// Resolves `args` and runs the command's handler with the remaining words.
    ///
    /// An unknown path is an error naming the words; a disabled command is not run and yields
    /// exit code 1 with a warning that names the command and the reason.
    pub fn execute(&self, context: &ToolContext, args: &[String]) -> (r: Result<CommandResult, String>)
        ensures
            no_match(self.command_list(), string_views(args@)) ==> is_error_with(
                r,
                unknown_command_message(string_views(args@)),
            ),
            forall|k: int|
                is_resolution(self.command_list(), string_views(args@), k) && spec_disabled(
                    #[trigger] self.command_list()[k],
                ) ==> is_refusal_with(r, disabled_warning(self.command_list()[k])),
            forall|k: int|
                is_resolution(self.command_list(), string_views(args@), k) && !spec_disabled(
                    #[trigger] self.command_list()[k],
                ) ==> self.command_list()[k].handler->Some_0.outcome(
                    *context,
                    string_views(args@).skip(self.command_list()[k].path@.len() as int),
                    r,
                ),
    {
        match self.resolve_index(args) {
            None => {
                let words = join_strings(args, " ");
                Err(concat("unknown command path: ", words.as_str()))
            },
            Some(k) => {
                let command = &self.commands[k];
                proof {
                    lemma_resolution_unique(self.command_list(), string_views(args@), k as int);
                }
                if command.is_effectively_disabled() {
                    let reason = command.disable_message();
                    let mut warning = concat("command ", command.id);
                    warning.append(" is disabled — ");
                    warning.append(reason);
                    return Ok(CommandResult { exit_code: 1, report: None, message: Some(warning) });
                }
                let rest = vstd::slice::slice_subrange(args, command.path.len(), args.len());
                assert(rest@ =~= args@.skip(command.path@.len() as int));
                assert(string_views(rest@) =~= string_views(args@).skip(command.path@.len() as int));
                match &command.handler {
                    Some(handler) => handler.run(context, rest),
                    None => Err(concat("command has no handler: ", command.id)),
                }
            },
        }
    }

    /// The command catalogue grouped by section (see `spec_help_text`).
    pub fn help_text(&self) -> (r: String)
        ensures
            r@ == spec_help_text(self.section_list(), self.command_list()),
    {
        let ghost blocks = self.sections@.map_values(
            |s: SectionSpec| spec_section_help(s, self.commands@),
        );
        let mut output = "Dhara tool commands:\n".to_owned();
        let mut i: usize = 0;
        while i < self.sections.len()
            invariant
                i <= self.sections@.len(),
                blocks == self.sections@.map_values(|s: SectionSpec| spec_section_help(s, self.commands@)),
                output@ == "Dhara tool commands:\n"@ + concat_all(blocks.take(i as int)),
            decreases self.sections.len() - i,
        {
            let section = &self.sections[i];
            let commands = self.commands_for_section(section.name);
            let ghost lines = deref_all(commands@).map_values(|c: CommandSpec| spec_help_line(c));
            let mut block = "\n".to_owned();
            block.append(section.name);
            block.append(":\n");
            let mut j: usize = 0;
            while j < commands.len()
                invariant
                    j <= commands@.len(),
                    lines == deref_all(commands@).map_values(|c: CommandSpec| spec_help_line(c)),
                    block@ == "\n"@ + section.name@ + ":\n"@ + concat_all(lines.take(j as int)),
                decreases commands.len() - j,
            {
                let line = help_line(commands[j]);
                block.append(line.as_str());
                assert(lines.take(j + 1).drop_last() =~= lines.take(j as int));
                j += 1;
            }
            assert(lines.take(commands@.len() as int) =~= lines);
            output.append(block.as_str());
            assert(blocks.take(i + 1).drop_last() =~= blocks.take(i as int));
            i += 1;
        }
        assert(blocks.take(self.sections@.len() as int) =~= blocks);
        output
    }
}

/// `r` is an error with the text `msg`.
pub open spec fn is_error_with(r: Result<CommandResult, String>, msg: Seq<char>) -> bool {
    match r {
        Err(e) => e@ == msg,
        Ok(_) => false,
    }
}

/// `r` reports exit code 1 with the message `msg` and no report.
pub open spec fn is_refusal_with(r: Result<CommandResult, String>, msg: Seq<char>) -> bool {
    match r {
        Ok(res) => res.exit_code == 1 && res.report is None && (match res.message {
            Some(m) => m@ == msg,
            None => false,
        }),
        Err(_) => false,
    }
}

/// All pieces of `xs` one after another.
pub open spec fn concat_all(xs: Seq<Seq<char>>) -> Seq<char>
    decreases xs.len(),
{
    if xs.len() == 0 {
        Seq::empty()
    } else {
        concat_all(xs.drop_last()) + xs.last()
    }
}

/// The help line of one command: its path (and argument summary), padded to 28 columns, then
/// its summary, marked when the command is disabled.
pub open spec fn spec_help_line(c: CommandSpec) -> Seq<char> {
    let head = if c.args_summary@.len() == 0 {
        spec_path_string(c)
    } else {
        spec_path_string(c) + " "@ + c.args_summary@
    };
    let summary = if spec_disabled(c) {
        c.summary@ + " (disabled)"@ + " — "@ + spec_disable_message(c)
    } else {
        c.summary@
    };
    "  "@ + pad_right_seq(head, 28) + " "@ + summary + "\n"@
}

/// The help block of one section: a heading and the lines of its commands.
pub open spec fn spec_section_help(s: SectionSpec, cmds: Seq<CommandSpec>) -> Seq<char> {
    "\n"@ + s.name@ + ":\n"@ + concat_all(
        cmds.filter(|c: CommandSpec| c.section@ == s.name@).map_values(|c: CommandSpec| spec_help_line(c)),
    )
}

/// The whole help text: a title and the block of every section in name order.
pub open spec fn spec_help_text(sections: Seq<SectionSpec>, cmds: Seq<CommandSpec>) -> Seq<char> {
    "Dhara tool commands:\n"@ + concat_all(sections.map_values(|s: SectionSpec| spec_section_help(s, cmds)))
}

/// The help line of `c` (see `spec_help_line`).
pub fn help_line(c: &CommandSpec) -> (r: String)
    ensures
        r@ == spec_help_line(*c),
{
    let path = c.path_string();
    let head = if c.args_summary.is_empty() {
        path
    } else {
        let mut h = path;
        h.append(" ");
        h.append(c.args_summary);
        h
    };
    let mut summary = c.summary.to_owned();
    if c.is_effectively_disabled() {
        summary.append(" (disabled)");
        let reason = c.disable_message();
        summary.append(" — ");
        summary.append(reason);
    }
    let mut line = "  ".to_owned();
    let padded = pad_right(head.as_str(), 28);
    line.append(padded.as_str());
    line.append(" ");
    line.append(summary.as_str());
    line.append("\n");
    line
}

/// The error `execute` gives for words that name no command.
pub open spec fn unknown_command_message(args: Seq<Seq<char>>) -> Seq<char> {
    "unknown command path: "@ + join_seq(args, " "@)
}

/// The warning `execute` returns for a disabled command.
pub open spec fn disabled_warning(c: CommandSpec) -> Seq<char> {
    "command "@ + c.id@ + " is disabled — "@ + spec_disable_message(c)
}

proof fn lemma_resolution_unique(cmds: Seq<CommandSpec>, args: Seq<Seq<char>>, k: int)
    requires
        is_resolution(cmds, args, k),
    ensures
        forall|j: int| #[trigger] is_resolution(cmds, args, j) ==> j == k,
{
    assert forall|j: int| #[trigger] is_resolution(cmds, args, j) implies j == k by {
        if j < k {
            assert(cmds[k].path@.len() < cmds[j].path@.len());
        } else if j > k {
            assert(cmds[j].path@.len() < cmds[k].path@.len());
        }
    }
}

proof fn lemma_add_section_position(old: Seq<SectionSpec>, s: SectionSpec, p: int)
    requires
        sections_sorted(old),
        0 <= p <= old.len(),
        forall|i: int| 0 <= i < p ==> seq_lt(#[trigger] old[i].name@, s.name@),
        p < old.len() ==> !seq_lt(old[p].name@, s.name@),
    ensures
        spec_add_section(old, s) == if p < old.len() && old[p].name@ == s.name@ {
            old.update(p, s)
        } else {
            old.insert(p, s)
        },
    decreases p,
{
    if p > 0 {
        let t = old.drop_first();
        assert forall|i: int, j: int| 0 <= i < j < t.len() implies seq_lt(
            #[trigger] t[i].name@,
            #[trigger] t[j].name@,
        ) by {
            assert(seq_lt(old[i + 1].name@, old[j + 1].name@));
        }
        assert forall|i: int| 0 <= i < p - 1 implies seq_lt(#[trigger] t[i].name@, s.name@) by {
            assert(seq_lt(old[i + 1].name@, s.name@));
        }
        lemma_add_section_position(t, s, p - 1);
        assert(seq_lt(old[0].name@, s.name@));
        if old[0].name@ == s.name@ {
            lemma_seq_lt_irreflexive(s.name@);
        }
        if p < old.len() && old[p].name@ == s.name@ {
            assert(old.update(p, s) =~= seq![old[0]] + t.update(p - 1, s));
        } else {
            assert(old.insert(p, s) =~= seq![old[0]] + t.insert(p - 1, s));
        }
    } else {
        if old.len() > 0 && old[0].name@ != s.name@ {
            lemma_seq_lt_total(old[0].name@, s.name@);
            assert(old.insert(0, s) =~= seq![s] + old);
        } else if old.len() == 0 {
            assert(old.insert(0, s) =~= seq![s]);
        }
    }
}

proof fn lemma_upsert_at(old: Seq<CommandSpec>, c: CommandSpec, i: int)
    requires
        0 <= i <= old.len(),
        forall|j: int| 0 <= j < i ==> #[trigger] old[j].id@ != c.id@,
        i < old.len() ==> old[i].id@ == c.id@,
    ensures
        spec_upsert(old, c) == if i < old.len() {
            old.update(i, c)
        } else {
            old.push(c)
        },
    decreases i,
{
    if i > 0 {
        let t = old.drop_first();
        assert forall|j: int| 0 <= j < i - 1 implies #[trigger] t[j].id@ != c.id@ by {
            assert(old[j + 1].id@ != c.id@);
        }
        lemma_upsert_at(t, c, i - 1);
        assert(old[0].id@ != c.id@);
        if i < old.len() {
            assert(old.update(i, c) =~= seq![old[0]] + t.update(i - 1, c));
        } else {
            assert(old.push(c) =~= seq![old[0]] + t.push(c));
        }
    } else if old.len() == 0 {
        assert(old.push(c) =~= seq![c]);
    }
}

/// Upserting into a list with unique ids keeps the ids unique.
pub proof fn lemma_upsert_keeps_ids_unique(old: Seq<CommandSpec>, c: CommandSpec)
    requires
        ids_unique(old),
    ensures
        ids_unique(spec_upsert(old, c)),
{
    let i: int = if has_id(old, c.id@) {
        choose|i: int| 0 <= i < old.len() && #[trigger] old[i].id@ == c.id@
    } else {
        old.len() as int
    };
    assert forall|j: int| 0 <= j < i implies #[trigger] old[j].id@ != c.id@ by {
        if old[j].id@ == c.id@ {
            assert(old[j].id@ == old[i].id@);
        }
    }
    lemma_upsert_at(old, c, i);
    let r = spec_upsert(old, c);
    assert forall|a: int, b: int| 0 <= a < r.len() && 0 <= b < r.len() && a != b implies #[trigger] r[a].id@
        != #[trigger] r[b].id@ by {
        if i < old.len() {
            if a != i && b != i {
                assert(old[a].id@ != old[b].id@);
            } else if a == i {
                assert(old[b].id@ != old[i].id@);
            } else {
                assert(old[a].id@ != old[i].id@);
            }
        } else {
            if a < old.len() && b < old.len() {
                assert(old[a].id@ != old[b].id@);
            } else if a < old.len() {
                assert(old[a].id@ != c.id@);
            } else {
                assert(old[b].id@ != c.id@);
            }
        }
    }
}

proof fn lemma_add_section_sorted(old: Seq<SectionSpec>, s: SectionSpec, p: int)
    requires
        sections_sorted(old),
        0 <= p <= old.len(),
        forall|i: int| 0 <= i < p ==> seq_lt(#[trigger] old[i].name@, s.name@),
        p < old.len() ==> !seq_lt(old[p].name@, s.name@),
    ensures
        sections_sorted(
            if p < old.len() && old[p].name@ == s.name@ {
                old.update(p, s)
            } else {
                old.insert(p, s)
            },
        ),
{
    if p < old.len() && old[p].name@ == s.name@ {
        let n = old.update(p, s);
        assert forall|i: int, j: int| 0 <= i < j < n.len() implies seq_lt(
            #[trigger] n[i].name@,
            #[trigger] n[j].name@,
        ) by {
            assert(seq_lt(old[i].name@, old[j].name@));
        }
    } else {
        let n = old.insert(p, s);
        if p < old.len() {
            lemma_seq_lt_total(old[p].name@, s.name@);
        }
        assert forall|i: int, j: int| 0 <= i < j < n.len() implies seq_lt(
            #[trigger] n[i].name@,
            #[trigger] n[j].name@,
        ) by {
            if j < p {
                assert(seq_lt(old[i].name@, old[j].name@));
            } else if j == p {
                assert(n[i] == old[i]);
            } else if i == p {
                assert(n[j] == old[j - 1]);
                if j - 1 > p {
                    assert(seq_lt(old[p].name@, old[j - 1].name@));
                    lemma_seq_lt_transitive(s.name@, old[p].name@, old[j - 1].name@);
                }
            } else if i < p {
                assert(n[j] == old[j - 1]);
                assert(seq_lt(old[i].name@, old[j - 1].name@));
            } else {
                assert(seq_lt(old[i - 1].name@, old[j - 1].name@));
            }
        }
    }
}

} // verus!
