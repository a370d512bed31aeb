//! What the TUI's panels show, as plain values: the status line and run button of the action
//! panel, the text of the info, troubleshooting and system tabs, and the rows of the options
//! tab with the widget each field gets. Painting them is the host's part.
use vstd::prelude::*;

use crate::command::{CommandRegistry, CommandSpec, FieldKind, FieldSpec, string_views};
use crate::forms::{FormValue, preset_label, spec_preset_label};
use crate::interactive::{AppState, DiagnosticLine, DiagnosticSeverity, RunPhase, StatusTone, lines_view};
use crate::repo_config::{decimal, decimal_string};
use crate::text::{chars_of, concat, concat3, string_from_range};
use crate::tui::bios_combo::{ComboPart, sat_add, sat_sub};
use crate::tui::bios_textbox::{Area, max_u16, min_u16};
use crate::tui::embedded::EmbeddedFocus;
use crate::tui::padded_button::{BUTTON_MIN_WIDTH, label_width};
use crate::tui::strings::{spec_t, t};
use crate::tui::text_wrap::{lines_of, spec_lines, spec_wrap_line, spec_wrap_paragraphs, wrap_line, wrap_paragraphs};

verus! {

/// The colour a status line is painted in.
#[derive(Debug, Clone, Copy, PartialEq, Eq, Structural)]
pub enum ValidationTone {
    Muted,
    Success,
    Error,
}

/// The colour of the status line: success and failure stand out, the rest is muted.
pub fn status_tone(state: &AppState) -> (r: ValidationTone)
    ensures
        r == match state.status_tone {
            StatusTone::Success => ValidationTone::Success,
            StatusTone::Failed => ValidationTone::Error,
            _ => ValidationTone::Muted,
        },
{
    match state.status_tone {
        StatusTone::Ready => ValidationTone::Muted,
        StatusTone::Running => ValidationTone::Muted,
        StatusTone::Success => ValidationTone::Success,
        StatusTone::Failed => ValidationTone::Error,
        StatusTone::Warning => ValidationTone::Muted,
    }
}

/// `s` without its trailing `c`s (`str::trim_end_matches` with a character).
pub open spec fn trim_end_char(s: Seq<char>, c: char) -> Seq<char>
    decreases s.len(),
{
    if s.len() > 0 && s.last() == c {
        trim_end_char(s.drop_last(), c)
    } else {
        s
    }
}

/// `s` without its trailing `c`s (see `trim_end_char`).
fn trim_end_matches_char(s: &str, c: char) -> (r: String)
    ensures
        r@ == trim_end_char(s@, c),
{
    let v = chars_of(s);
    let mut end: usize = v.len();
    assert(v@.take(end as int) =~= s@);
    while end > 0 && v[end - 1] == c
        invariant
            end <= v@.len(),
            v@ == s@,
            trim_end_char(s@, c) == trim_end_char(v@.take(end as int), c),
        decreases end,
    {
        assert(v@.take(end as int).drop_last() =~= v@.take(end - 1));
        end -= 1;
    }
    let r = string_from_range(&v, 0, end);
    assert(v@.subrange(0, end as int) =~= v@.take(end as int));
    r
}

/// ` (<secs>s)` for an elapsed time in seconds.
pub open spec fn elapsed_note(secs: u64) -> Seq<char> {
    "… ("@ + decimal(secs as nat) + "s)"@
}

/// The status line of the action panel: while analysing, the analysing message; else the step
/// label (without its trailing `…`, then `… (<secs>s)` when the elapsed time is shown), else
/// the activity label (with `…`, and the elapsed time when shown); otherwise the status message.
pub open spec fn spec_status_line(state: AppState) -> Seq<char> {
    match state.progress {
        Some(p) => if p.phase == RunPhase::Analyzing && p.analyzing_message@.len() > 0 {
            p.analyzing_message@
        } else if p.step_label@.len() > 0 {
            match p.elapsed_secs {
                Some(secs) => trim_end_char(p.step_label@, '…') + elapsed_note(secs),
                None => p.step_label@,
            }
        } else if p.activity_label@.len() > 0 {
            match p.elapsed_secs {
                Some(secs) => p.activity_label@ + elapsed_note(secs),
                None => p.activity_label@ + "…"@,
            }
        } else {
            state.status_message@
        },
        None => state.status_message@,
    }
}

/// The status line of the action panel (see `spec_status_line`).
pub fn format_status_line(state: &AppState) -> (r: String)
    ensures
        r@ == spec_status_line(*state),
{
    if let Some(p) = &state.progress {
        let analyzing = match p.phase {
            RunPhase::Analyzing => true,
            _ => false,
        };
        if analyzing && p.analyzing_message.as_str().unicode_len() > 0 {
            return p.analyzing_message.clone();
        }
        if p.step_label.as_str().unicode_len() > 0 {
            return match p.elapsed_secs {
                Some(secs) => {
                    let base = trim_end_matches_char(p.step_label.as_str(), '…');
                    let mut r = concat3(base.as_str(), "… (", decimal_string(secs).as_str());
                    r.append("s)");
                    r
                },
                None => p.step_label.clone(),
            };
        }
        if p.activity_label.as_str().unicode_len() > 0 {
            return match p.elapsed_secs {
                Some(secs) => {
                    let mut r = concat3(p.activity_label.as_str(), "… (", decimal_string(secs).as_str());
                    r.append("s)");
                    r
                },
                None => concat(p.activity_label.as_str(), "…"),
            };
        }
    }
    state.status_message.clone()
}

/// The run button of the action panel: `Cancel` while a run is active (enabled when it can be
/// cancelled), else `Run`; as wide as its bracketed label, at least `BUTTON_MIN_WIDTH`, at most
/// the slot, centred in `slot` on its first row.
pub open spec fn spec_run_button(state: AppState, slot: Area) -> (&'static str, bool, Area) {
    let (label, enabled): (&'static str, bool) = match state.active_run {
        Some(run) => ("Cancel", run.cancelable),
        None => ("Run", true),
    };
    let width = min_u16(max_u16(unicode_str_width_label(label@), BUTTON_MIN_WIDTH), slot.width);
    (label, enabled, Area { x: (slot.x + (slot.width - width) / 2) as u16, y: slot.y, width, height: 1 })
}

/// The columns of `[ label ]`.
pub open spec fn unicode_str_width_label(label: Seq<char>) -> u16 {
    crate::tui::width::unicode_str_width("[ "@ + label + " ]"@) as u16
}

/// A tab body inset by one cell on every side, so that text does not touch the panel border.
pub fn inset_body(area: Area) -> (r: Area)
    ensures
        r == (Area {
            x: sat_add(area.x, 1),
            y: sat_add(area.y, 1),
            width: sat_sub(area.width, 2),
            height: sat_sub(area.height, 2),
        }),
{
    Area {
        x: area.x.saturating_add(1),
        y: area.y.saturating_add(1),
        width: area.width.saturating_sub(2),
        height: area.height.saturating_sub(2),
    }
}

/// The run button (see `spec_run_button`).
pub fn run_button(state: &AppState, slot: Area) -> (r: (&'static str, bool, Area))
    requires
        slot.x + slot.width <= u16::MAX,
    ensures
        r == spec_run_button(*state, slot),
{
    let (label, enabled): (&'static str, bool) = match &state.active_run {
        Some(run) => ("Cancel", run.cancelable),
        None => ("Run", true),
    };
    let lw = label_width(label);
    let wide = if lw >= BUTTON_MIN_WIDTH {
        lw
    } else {
        BUTTON_MIN_WIDTH
    };
    let width = if wide <= slot.width {
        wide
    } else {
        slot.width
    };
    let x = slot.x + (slot.width - width) / 2;
    (label, enabled, Area { x, y: slot.y, width, height: 1 })
}

/// Appends `more` to `lines`.
fn append_lines(lines: &mut Vec<String>, more: Vec<String>)
    ensures
        string_views(final(lines)@) == string_views(old(lines)@) + string_views(more@),
{
    let ghost start = string_views(lines@);
    let mut i: usize = 0;
    while i < more.len()
        invariant
            i <= more@.len(),
            string_views(lines@) == start + string_views(more@).take(i as int),
        decreases more.len() - i,
    {
        let ghost before = lines@;
        let x = more[i].clone();
        lines.push(x);
        proof {
            crate::command::lemma_string_views_push(before, x);
            assert(string_views(more@).take(i + 1) =~= string_views(more@).take(i as int).push(more@[i as int]@));
        }
        i += 1;
    }
    assert(string_views(more@).take(more@.len() as int) =~= string_views(more@));
}

/// Appends an empty line to `lines`.
fn push_blank(lines: &mut Vec<String>)
    ensures
        string_views(final(lines)@) == string_views(old(lines)@).push(Seq::<char>::empty()),
{
    let ghost before = lines@;
    let e = String::new();
    lines.push(e);
    proof {
        crate::command::lemma_string_views_push(before, e);
    }
}

/// How a command is invoked: its path, then its argument summary when it has one.
pub open spec fn spec_syntax(c: CommandSpec) -> Seq<char> {
    if c.args_summary@.len() == 0 {
        crate::command::spec_path_string(c)
    } else {
        crate::command::spec_path_string(c) + " "@ + c.args_summary@
    }
}

/// The text of the info tab for `command`, wrapped to `width` columns: the path as title, a
/// blank line and the summary; the description after a blank line when it says more than the
/// summary; the disable reason after a blank line when disabled; the syntax heading and the
/// indented syntax after a blank line; and, for a command with fields, the CLI flags heading
/// and the indented syntax after a blank line.
pub open spec fn spec_info_lines(c: CommandSpec, width: usize) -> Seq<Seq<char>> {
    let blank = seq![Seq::<char>::empty()];
    let syntax = "  "@ + spec_syntax(c);
    let head = spec_wrap_line(crate::command::spec_path_string(c), width) + blank + spec_wrap_line(c.summary@, width);
    let described = if c.ui.description@.len() > 0 && c.ui.description@ != c.summary@ {
        head + blank + spec_wrap_paragraphs(c.ui.description@, width)
    } else {
        head
    };
    let disabled = if crate::command::spec_disabled(c) {
        described + blank + spec_wrap_line("Disabled — "@ + crate::command::spec_disable_message(c), width)
    } else {
        described
    };
    let with_syntax = disabled + blank + spec_wrap_line(spec_t("doc.syntax"@)@, width) + spec_wrap_line(syntax, width);
    if c.ui.fields@.len() > 0 {
        with_syntax + blank + spec_wrap_line(spec_t("doc.cli_flags"@)@, width) + spec_wrap_line(syntax, width)
    } else {
        with_syntax
    }
}

/// The text of the info tab (see `spec_info_lines`).
pub fn info_tab_lines(command: &CommandSpec, width: usize) -> (r: Vec<String>)
    ensures
        string_views(r@) == spec_info_lines(*command, width),
{
    let path = command.path_string();
    let mut lines = wrap_line(path.as_str(), width);
    push_blank(&mut lines);
    append_lines(&mut lines, wrap_line(command.summary, width));
    if command.ui.description.unicode_len() > 0 && !crate::text::str_eq(command.ui.description, command.summary) {
        push_blank(&mut lines);
        append_lines(&mut lines, wrap_paragraphs(command.ui.description, width));
    }
    if command.is_effectively_disabled() {
        push_blank(&mut lines);
        let reason = concat("Disabled — ", command.disable_message());
        append_lines(&mut lines, wrap_line(reason.as_str(), width));
    }
    let syntax = if command.args_summary.unicode_len() == 0 {
        command.path_string()
    } else {
        concat3(path.as_str(), " ", command.args_summary)
    };
    let indented = concat("  ", syntax.as_str());
    push_blank(&mut lines);
    append_lines(&mut lines, wrap_line(t("doc.syntax"), width));
    append_lines(&mut lines, wrap_line(indented.as_str(), width));
    if command.ui.fields.len() > 0 {
        push_blank(&mut lines);
        append_lines(&mut lines, wrap_line(t("doc.cli_flags"), width));
        append_lines(&mut lines, wrap_line(indented.as_str(), width));
    }
    lines
}

/// The text one troubleshooting line shows: a detail indented by six spaces, a headline after
/// its `[WARN]` or `[ERR ]` tag.
pub open spec fn trouble_text(l: (DiagnosticSeverity, Seq<char>, bool)) -> Seq<char> {
    if l.2 {
        "      "@ + l.1
    } else {
        match l.0 {
            DiagnosticSeverity::Warn => "[WARN] "@ + l.1,
            DiagnosticSeverity::Error => "[ERR ] "@ + l.1,
        }
    }
}

/// The text of the troubleshooting tab: each line's text (see `trouble_text`) wrapped to
/// `width` columns, in order.
pub open spec fn spec_trouble_lines(ls: Seq<(DiagnosticSeverity, Seq<char>, bool)>, width: usize) -> Seq<Seq<char>>
    decreases ls.len(),
{
    if ls.len() == 0 {
        Seq::empty()
    } else {
        spec_trouble_lines(ls.drop_last(), width) + spec_wrap_line(trouble_text(ls.last()), width)
    }
}

/// The text of the troubleshooting tab (see `spec_trouble_lines`).
pub fn trouble_tab_lines(lines: &Vec<DiagnosticLine>, width: usize) -> (r: Vec<String>)
    ensures
        string_views(r@) == spec_trouble_lines(lines_view(lines@), width),
{
    let ghost ls = lines_view(lines@);
    let mut out: Vec<String> = Vec::new();
    let mut i: usize = 0;
    assert(ls.take(0) =~= Seq::<(DiagnosticSeverity, Seq<char>, bool)>::empty());
    while i < lines.len()
        invariant
            i <= lines@.len(),
            ls == lines_view(lines@),
            string_views(out@) == spec_trouble_lines(ls.take(i as int), width),
        decreases lines.len() - i,
    {
        let line = &lines[i];
        let text = if line.continuation {
            concat("      ", line.text.as_str())
        } else {
            match line.severity {
                DiagnosticSeverity::Warn => concat("[WARN] ", line.text.as_str()),
                DiagnosticSeverity::Error => concat("[ERR ] ", line.text.as_str()),
            }
        };
        proof {
            assert(ls.take(i + 1).drop_last() =~= ls.take(i as int));
            assert(ls.take(i + 1).last() == ls[i as int]);
        }
        append_lines(&mut out, wrap_line(text.as_str(), width));
        i += 1;
    }
    assert(ls.take(ls.len() as int) =~= ls);
    out
}

/// The text of the system tab: each line of the configuration text (or the placeholder when
/// none is loaded) wrapped to `width` columns, an empty line kept as it is.
pub open spec fn spec_system_lines(ls: Seq<Seq<char>>, width: usize) -> Seq<Seq<char>>
    decreases ls.len(),
{
    if ls.len() == 0 {
        Seq::empty()
    } else {
        spec_system_lines(ls.drop_last(), width) + if ls.last().len() == 0 {
            seq![Seq::<char>::empty()]
        } else {
            spec_wrap_line(ls.last(), width)
        }
    }
}

/// The text shown by the system tab.
pub open spec fn system_text(text: Option<String>) -> Seq<char> {
    match text {
        Some(t) => t@,
        None => spec_t("system.empty"@)@,
    }
}

/// The text of the system tab (see `spec_system_lines`).
pub fn system_tab_lines(text: &Option<String>, width: usize) -> (r: Vec<String>)
    ensures
        string_views(r@) == spec_system_lines(spec_lines(system_text(*text)), width),
{
    let source = match text {
        Some(t) => t.clone(),
        None => t("system.empty").to_owned(),
    };
    let ls = lines_of(source.as_str());
    let ghost lv = string_views(ls@);
    let mut out: Vec<String> = Vec::new();
    let mut i: usize = 0;
    assert(lv.take(0) =~= Seq::<Seq<char>>::empty());
    while i < ls.len()
        invariant
            i <= ls@.len(),
            lv == string_views(ls@),
            string_views(out@) == spec_system_lines(lv.take(i as int), width),
        decreases ls.len() - i,
    {
        proof {
            assert(lv.take(i + 1).drop_last() =~= lv.take(i as int));
            assert(lv.take(i + 1).last() == ls@[i as int]@);
        }
        if ls[i].as_str().unicode_len() == 0 {
            push_blank(&mut out);
        } else {
            append_lines(&mut out, wrap_line(ls[i].as_str(), width));
        }
        i += 1;
    }
    assert(lv.take(lv.len() as int) =~= lv);
    out
}

/// The command selected in the session, looked up in `registry`.
pub open spec fn spec_selected(state: AppState, registry: CommandRegistry) -> Option<CommandSpec> {
    match state.selected_command_id {
        None => None,
        Some(id) => match crate::interactive::command_index(registry.command_list(), id@) {
            Some(k) => Some(registry.command_list()[k]),
            None => None,
        },
    }
}

/// The indent of a field row below its group title.
pub const GROUP_INDENT: u16 = 2;

/// One row of the options tab: a group's title, or the field at `index`.
#[derive(Debug, Clone, Copy, PartialEq, Eq)]
pub enum OptionRow {
    GroupTitle { area: Area, title: &'static str },
    Field { area: Area, index: usize },
}

/// What the options tab's field area shows: a message, or rows.
#[derive(Debug, Clone, PartialEq, Eq)]
pub enum OptionsBody {
    Message(&'static str),
    Rows(Vec<OptionRow>),
}

/// The options tab: the reset button (where, and whether it is enabled) and the field area.
#[derive(Debug, Clone, PartialEq, Eq)]
pub struct OptionsTabView {
    pub reset_area: Area,
    pub reset_enabled: bool,
    pub body: OptionsBody,
}

/// Two optional group names are the same group.
pub open spec fn same_group(a: Option<&'static str>, b: Option<&'static str>) -> bool {
    match (a, b) {
        (Some(x), Some(y)) => x@ == y@,
        (None, None) => true,
        _ => false,
    }
}

/// The field area of the options tab: all of `area` but its last row.
pub open spec fn fields_area(area: Area) -> Area {
    Area { x: area.x, y: area.y, width: area.width, height: if area.height >= 1 { (area.height - 1) as u16 } else { 0 } }
}

/// The footer row of the options tab: the last row of `area`.
pub open spec fn footer_area(area: Area) -> Area {
    if area.height >= 1 {
        Area { x: area.x, y: (area.y + area.height - 1) as u16, width: area.width, height: 1 }
    } else {
        Area { x: area.x, y: area.y, width: area.width, height: 0 }
    }
}

/// The reset button: as wide as `[ Reset ]`, at least `BUTTON_MIN_WIDTH`, at most the footer,
/// at the footer's right end.
pub open spec fn spec_reset_area(area: Area) -> Area {
    let footer = footer_area(area);
    let w = min_u16(max_u16(unicode_str_width_label("Reset"@), BUTTON_MIN_WIDTH), footer.width);
    Area { x: sat_add(footer.x, sat_sub(footer.width, w)), y: footer.y, width: w, height: 1 }
}

/// The rows of fields `i..` of the options tab, from row `y` of the field area `fa` while rows
/// are left, in the group `group`: a new group leaves a blank row after the previous group and
/// starts with its title (when a row is left for it); each field takes an indented row.
pub open spec fn option_rows(fields: Seq<FieldSpec>, i: int, y: int, group: Option<&'static str>, fa: Area) -> Seq<
    OptionRow,
>
    decreases fields.len() - i,
{
    if i < 0 || i >= fields.len() || y >= fa.y + fa.height {
        Seq::empty()
    } else {
        let f = fields[i];
        let switched = !same_group(group, f.group);
        let y1 = if switched && group is Some {
            y + 1
        } else {
            y
        };
        let titled = switched && f.group is Some && y1 < fa.y + fa.height;
        let titles = if titled {
            seq![OptionRow::GroupTitle { area: Area { x: fa.x, y: y1 as u16, width: fa.width, height: 1 }, title: f.group->Some_0 }]
        } else {
            Seq::empty()
        };
        let y2 = if titled {
            y1 + 1
        } else {
            y1
        };
        let row = OptionRow::Field {
            area: Area {
                x: sat_add(fa.x, GROUP_INDENT),
                y: y2 as u16,
                width: sat_sub(fa.width, GROUP_INDENT),
                height: 1,
            },
            index: i as usize,
        };
        titles.push(row) + option_rows(fields, i + 1, y2 + 1, if switched { f.group } else { group }, fa)
    }
}

/// Whether two optional group names are the same group (see `same_group`).
fn group_eq(a: Option<&'static str>, b: Option<&'static str>) -> (r: bool)
    ensures
        r == same_group(a, b),
{
    match (a, b) {
        (Some(x), Some(y)) => crate::text::str_eq(x, y),
        (None, None) => true,
        _ => false,
    }
}

/// The options tab of the session in `area` (see `OptionsTabView`): the reset button is
/// enabled when a command is selected and nothing runs; the field area shows a message when no
/// command is selected, its form is not there yet or it has no fields, and the field rows
/// (see `option_rows`) otherwise.
pub fn options_tab_view(state: &AppState, registry: &CommandRegistry, area: Area) -> (r: OptionsTabView)
    requires
        area.y + area.height <= u16::MAX,
    ensures
        r.reset_area == spec_reset_area(area),
        r.reset_enabled == (spec_selected(*state, *registry) is Some && state.active_run is None),
        match spec_selected(*state, *registry) {
            None => r.body == OptionsBody::Message(spec_t("options.empty"@)),
            Some(c) => match crate::interactive::form_index(state.forms@, c.id@) {
                None => r.body == OptionsBody::Message(spec_t("options.loading"@)),
                Some(_) => if c.ui.fields@.len() == 0 {
                    r.body == OptionsBody::Message(spec_t("options.none"@))
                } else {
                    r.body matches OptionsBody::Rows(rows) && rows@ == option_rows(
                        c.ui.fields@,
                        0,
                        area.y as int,
                        None,
                        fields_area(area),
                    )
                },
            },
        },
{
    let fa = Area { x: area.x, y: area.y, width: area.width, height: if area.height >= 1 { area.height - 1 } else { 0 } };
    let footer = if area.height >= 1 {
        Area { x: area.x, y: area.y + area.height - 1, width: area.width, height: 1 }
    } else {
        Area { x: area.x, y: area.y, width: area.width, height: 0 }
    };
    let lw = label_width("Reset");
    let wide = if lw >= BUTTON_MIN_WIDTH {
        lw
    } else {
        BUTTON_MIN_WIDTH
    };
    let reset_w = if wide <= footer.width {
        wide
    } else {
        footer.width
    };
    let reset_area = Area {
        x: footer.x.saturating_add(footer.width.saturating_sub(reset_w)),
        y: footer.y,
        width: reset_w,
        height: 1,
    };
    let command = state.selected_command(registry);
    let reset_enabled = command.is_some() && state.active_run.is_none();
    let command = match command {
        None => return OptionsTabView { reset_area, reset_enabled, body: OptionsBody::Message(t("options.empty")) },
        Some(c) => c,
    };
    if !has_form(state, command.id) {
        return OptionsTabView { reset_area, reset_enabled, body: OptionsBody::Message(t("options.loading")) };
    }
    if command.ui.fields.len() == 0 {
        return OptionsTabView { reset_area, reset_enabled, body: OptionsBody::Message(t("options.none")) };
    }
    let fields = &command.ui.fields;
    assert(fa == fields_area(area));
    if fa.height == 0 {
        let rows: Vec<OptionRow> = Vec::new();
        assert(rows@ =~= option_rows(fields@, 0, fa.y as int, None, fa));
        return OptionsTabView { reset_area, reset_enabled, body: OptionsBody::Rows(rows) };
    }
    let bottom: u16 = fa.y + fa.height;
    let mut rows: Vec<OptionRow> = Vec::new();
    let mut y: u16 = fa.y;
    let mut group: Option<&'static str> = None;
    let mut i: usize = 0;
    assert(rows@ + option_rows(fields@, 0, fa.y as int, None, fa) =~= option_rows(fields@, 0, fa.y as int, None, fa));
    while i < fields.len()
        invariant
            i <= fields@.len(),
            y <= bottom + 1,
            bottom as int == fa.y + fa.height,
            bottom + 1 <= u16::MAX,
            fa == fields_area(area),
            rows@ + option_rows(fields@, i as int, y as int, group, fa) == option_rows(fields@, 0, fa.y as int, None, fa),
        ensures
            rows@ + option_rows(fields@, i as int, y as int, group, fa) == option_rows(fields@, 0, fa.y as int, None, fa),
            i >= fields@.len() || y >= bottom,
            bottom as int == fa.y + fa.height,
            fa == fields_area(area),
        decreases fields.len() - i,
    {
        if y >= bottom {
            break;
        }
        let ghost before = rows@;
        let ghost start_y = y;
        let ghost start_group = group;
        let field = &fields[i];
        let switched = !group_eq(group, field.group);
        if switched {
            if group.is_some() {
                y = y + 1;
            }
            group = field.group;
            if let Some(title) = field.group {
                if y < bottom {
                    rows.push(OptionRow::GroupTitle { area: Area { x: fa.x, y, width: fa.width, height: 1 }, title });
                    y = y + 1;
                }
            }
        }
        rows.push(
            OptionRow::Field {
                area: Area {
                    x: fa.x.saturating_add(GROUP_INDENT),
                    y,
                    width: fa.width.saturating_sub(GROUP_INDENT),
                    height: 1,
                },
                index: i,
            },
        );
        proof {
            let added = rows@.subrange(before.len() as int, rows@.len() as int);
            assert(rows@ =~= before + added);
            let tail = option_rows(fields@, i + 1, y + 1, group, fa);
            assert(option_rows(fields@, i as int, start_y as int, start_group, fa) == added + tail);
            assert(before + option_rows(fields@, i as int, start_y as int, start_group, fa) =~= rows@ + tail);
        }
        y = y + 1;
        i += 1;
    }
    assert(option_rows(fields@, i as int, y as int, group, fa) =~= Seq::<OptionRow>::empty());
    assert(rows@ =~= rows@ + Seq::<OptionRow>::empty());
    OptionsTabView { reset_area, reset_enabled, body: OptionsBody::Rows(rows) }
}

/// Whether the session holds a form for command `id`.
fn has_form(state: &AppState, id: &str) -> (r: bool)
    ensures
        r == (crate::interactive::form_index(state.forms@, id@) is Some),
{
    let mut i: usize = 0;
    while i < state.forms.len()
        invariant
            i <= state.forms@.len(),
            forall|j: int| 0 <= j < i ==> #[trigger] state.forms@[j].command_id@ != id@,
        decreases state.forms.len() - i,
    {
        if crate::text::str_eq(state.forms[i].command_id, id) {
            assert(state.forms@[i as int].command_id@ == id@);
            return true;
        }
        i += 1;
    }
    false
}

/// The widget an option field shows.
#[derive(Debug, Clone, PartialEq, Eq)]
pub enum FieldWidget {
    /// A check box with the field's label.
    CheckBox { label: &'static str, checked: bool, focused: bool },
    /// A combo showing `value`; its overflowing value scrolls under `marquee_key`.
    Combo { value: &'static str, selected: bool, embedded: Option<ComboPart>, marquee_key: String },
    /// A text box showing `text` with the caret at `cursor_pos` while editing.
    TextBox { label: &'static str, text: String, selected: bool, editing: bool, cursor_pos: usize },
    /// A line saying the field cannot be shown.
    Unsupported { text: String },
}

/// The part of the combo of field `index` that holds embedded focus.
pub open spec fn embedded_combo(embedded: Option<EmbeddedFocus>, index: usize) -> Option<ComboPart> {
    match embedded {
        Some(EmbeddedFocus::Combo { field_index, part }) => if field_index == index {
            Some(part)
        } else {
            None
        },
        _ => None,
    }
}

/// True when the text box of field `index` holds embedded focus.
pub open spec fn embedded_text(embedded: Option<EmbeddedFocus>, index: usize) -> bool {
    embedded matches Some(EmbeddedFocus::Text { field_index }) && field_index == index
}

/// True for a field kind edited as text.
pub open spec fn is_text_kind(kind: FieldKind) -> bool {
    kind is Text || kind is Path || kind is BrowsablePath
}

/// The marquee key of field `index` of command `command_id`: `<command_id>:<index>`.
pub open spec fn marquee_key(command_id: Seq<char>, index: usize) -> Seq<char> {
    command_id + ":"@ + decimal(index as nat)
}

/// The widget of field `index` (`field`, holding `value`) of command `command_id`: a check box
/// for a switch, a combo for a choice (a radio field shows its chosen option, or nothing for a
/// choice out of range; the others their choice's label), a text box for text (showing the
/// input being edited and its caret while the field holds embedded text focus, else the value
/// with the caret after it), and a line saying it is unsupported when the value does not fit
/// the kind. The row counts as selected when it is the focused field of a focused tab.
pub open spec fn spec_field_widget(
    command_id: Seq<char>,
    index: usize,
    field: FieldSpec,
    value: FormValue,
    selected: bool,
    content_focused: bool,
    embedded: Option<EmbeddedFocus>,
    input_text: Seq<char>,
    input_cursor: usize,
) -> (Seq<char>, Option<bool>, Option<Seq<char>>, Option<usize>) {
    // (shown text, check box state, combo marquee key, caret), with the focus flags checked apart.
    match value {
        FormValue::Boolean(checked) => if field.kind is Boolean {
            (field.label@, Some(checked), None, None)
        } else {
            ("  "@ + field.label@ + ": (unsupported)"@, None, None, None)
        },
        FormValue::Select(sel) => match field.kind {
            FieldKind::Radio(options) => (
                if sel < options@.len() {
                    options@[sel as int]@
                } else {
                    Seq::empty()
                },
                None,
                Some(marquee_key(command_id, index)),
                None,
            ),
            FieldKind::Combo(_) => (spec_preset_label(field.kind, sel as int), None, Some(marquee_key(command_id, index)), None),
            FieldKind::Select(_) => (spec_preset_label(field.kind, sel as int), None, Some(marquee_key(command_id, index)), None),
            FieldKind::Preset(_) => (spec_preset_label(field.kind, sel as int), None, Some(marquee_key(command_id, index)), None),
            _ => ("  "@ + field.label@ + ": (unsupported)"@, None, None, None),
        },
        FormValue::Text(text) => if is_text_kind(field.kind) {
            if embedded_text(embedded, index) {
                (input_text, None, None, Some(input_cursor))
            } else {
                (text@, None, None, Some(text@.len() as usize))
            }
        } else {
            ("  "@ + field.label@ + ": (unsupported)"@, None, None, None)
        },
    }
}

/// The widget as the same plain values as `spec_field_widget`.
pub open spec fn widget_view(w: FieldWidget) -> (Seq<char>, Option<bool>, Option<Seq<char>>, Option<usize>) {
    match w {
        FieldWidget::CheckBox { label, checked, .. } => (label@, Some(checked), None, None),
        FieldWidget::Combo { value, marquee_key, .. } => (value@, None, Some(marquee_key@), None),
        FieldWidget::TextBox { text, cursor_pos, .. } => (text@, None, None, Some(cursor_pos)),
        FieldWidget::Unsupported { text } => (text@, None, None, None),
    }
}

/// The widget of an option field (see `spec_field_widget`); a check box is focused, a combo or
/// text box selected, when the field is selected in a focused tab; a combo carries the part
/// with embedded focus, a text box whether it is being edited (embedded text focus in a
/// focused tab).
pub fn form_field_widget(
    command_id: &str,
    index: usize,
    field: &FieldSpec,
    value: &FormValue,
    selected: bool,
    content_focused: bool,
    embedded: Option<EmbeddedFocus>,
    input_text: &str,
    input_cursor: usize,
) -> (r: FieldWidget)
    ensures
        widget_view(r) == spec_field_widget(
            command_id@,
            index,
            *field,
            *value,
            selected,
            content_focused,
            embedded,
            input_text@,
            input_cursor,
        ),
        r matches FieldWidget::CheckBox { focused, .. } ==> focused == (selected && content_focused),
        r matches FieldWidget::Combo { selected: s, embedded: e, .. } ==> s == (selected && content_focused) && e
            == embedded_combo(embedded, index),
        r matches FieldWidget::TextBox { label, selected: s, editing, .. } ==> label == field.label && s == (selected
            && content_focused) && editing == (embedded_text(embedded, index) && content_focused),
{
    let row_selected = selected && content_focused;
    let combo_part = match embedded {
        Some(EmbeddedFocus::Combo { field_index, part }) => if field_index == index {
            Some(part)
        } else {
            None
        },
        _ => None,
    };
    let text_focus = match embedded {
        Some(EmbeddedFocus::Text { field_index }) => field_index == index,
        _ => false,
    };
    let unsupported = FieldWidget::Unsupported { text: concat3("  ", field.label, ": (unsupported)") };
    match value {
        FormValue::Boolean(checked) => match field.kind {
            FieldKind::Boolean => FieldWidget::CheckBox { label: field.label, checked: *checked, focused: row_selected },
            _ => unsupported,
        },
        FormValue::Select(sel) => {
            let key = concat3(command_id, ":", decimal_string(index as u64).as_str());
            match field.kind {
                FieldKind::Radio(options) => {
                    let label: &'static str = if *sel < options.len() {
                        options[*sel]
                    } else {
                        ""
                    };
                    proof {
                        reveal_strlit("");
                    }
                    FieldWidget::Combo { value: label, selected: row_selected, embedded: combo_part, marquee_key: key }
                },
                FieldKind::Combo(_) | FieldKind::Select(_) | FieldKind::Preset(_) => FieldWidget::Combo {
                    value: preset_label(&field.kind, *sel),
                    selected: row_selected,
                    embedded: combo_part,
                    marquee_key: key,
                },
                _ => unsupported,
            }
        },
        FormValue::Text(text) => match field.kind {
            FieldKind::Text | FieldKind::Path | FieldKind::BrowsablePath { .. } => {
                if text_focus {
                    FieldWidget::TextBox {
                        label: field.label,
                        text: input_text.to_owned(),
                        selected: row_selected,
                        editing: content_focused,
                        cursor_pos: input_cursor,
                    }
                } else {
                    FieldWidget::TextBox {
                        label: field.label,
                        text: text.clone(),
                        selected: row_selected,
                        editing: false,
                        cursor_pos: text.as_str().unicode_len(),
                    }
                }
            },
            _ => unsupported,
        },
    }
}

/// What an option widget is loaded with: the text of a text field, or the state of a switch.
#[derive(Debug, Clone, PartialEq, Eq)]
pub enum OptionWidgetValue {
    Text(String),
    Checked(bool),
}

/// The form of the selected command and the field `form_field` of it, when both exist and the
/// form holds a value for it.
pub open spec fn focused_value(state: AppState, registry: CommandRegistry, form_field: usize) -> Option<(int, FieldKind, FormValue)> {
    match spec_selected(state, registry) {
        None => None,
        Some(c) => match crate::interactive::form_index(state.forms@, c.id@) {
            None => None,
            Some(fi) => if form_field < c.ui.fields@.len() && form_field < state.forms@[fi].values@.len() {
                Some((fi, c.ui.fields@[form_field as int].kind, state.forms@[fi].values@[form_field as int]))
            } else {
                None
            },
        },
    }
}

/// The position of the selected command's form and the command, when both exist.
fn focused_form<'a>(state: &AppState, registry: &'a CommandRegistry) -> (r: Option<(usize, &'a CommandSpec)>)
    requires
        state.wf(),
    ensures
        match spec_selected(*state, *registry) {
            None => r is None,
            Some(c) => match crate::interactive::form_index(state.forms@, c.id@) {
                None => r is None,
                Some(fi) => r matches Some((i, cmd)) && i == fi && *cmd == c,
            },
        },
{
    let command = match state.selected_command(registry) {
        Some(c) => c,
        None => return None,
    };
    let mut i: usize = 0;
    while i < state.forms.len()
        invariant
            i <= state.forms@.len(),
            state.wf(),
            spec_selected(*state, *registry) == Some(*command),
            forall|j: int| 0 <= j < i ==> #[trigger] state.forms@[j].command_id@ != command.id@,
        decreases state.forms.len() - i,
    {
        if crate::text::str_eq(state.forms[i].command_id, command.id) {
            proof {
                let k = choose|k: int| 0 <= k < state.forms@.len() && #[trigger] state.forms@[k].command_id@ == command.id@;
                if k != i {
                    assert(state.forms@[k].command_id@ != state.forms@[i as int].command_id@);
                }
            }
            return Some((i, command));
        }
        i += 1;
    }
    None
}

/// What the option widgets are loaded with for the focused field (see `focused_value`): the
/// text of a text field, the state of a switch; nothing for any other field.
pub fn sync_option_widgets_from_form(state: &AppState, registry: &CommandRegistry, form_field: usize) -> (r: Option<
    OptionWidgetValue,
>)
    requires
        state.wf(),
    ensures
        match focused_value(*state, *registry, form_field) {
            Some((_, kind, FormValue::Text(t))) => if is_text_kind(kind) {
                r matches Some(OptionWidgetValue::Text(x)) && x@ == t@
            } else {
                r is None
            },
            Some((_, FieldKind::Boolean, FormValue::Boolean(b))) => r == Some(OptionWidgetValue::Checked(b)),
            _ => r is None,
        },
{
    let (fi, command) = match focused_form(state, registry) {
        Some(x) => x,
        None => return None,
    };
    if form_field >= command.ui.fields.len() || form_field >= state.forms[fi].values.len() {
        return None;
    }
    let field = &command.ui.fields[form_field];
    match &state.forms[fi].values[form_field] {
        FormValue::Text(t) => match field.kind {
            FieldKind::Text | FieldKind::Path | FieldKind::BrowsablePath { .. } => Some(OptionWidgetValue::Text(t.clone())),
            _ => None,
        },
        FormValue::Boolean(b) => match field.kind {
            FieldKind::Boolean => Some(OptionWidgetValue::Checked(*b)),
            _ => None,
        },
        _ => None,
    }
}

/// Writes the option widgets back into the focused field (see `focused_value`): a text field
/// takes `input_text`, a switch `checked`; any other field, and everything else, stays as it
/// was.
pub fn apply_option_widgets_to_form(
    state: &mut AppState,
    registry: &CommandRegistry,
    form_field: usize,
    input_text: &str,
    checked: bool,
)
    requires
        old(state).wf(),
    ensures
        final(state).wf(),
        final(state).forms@.len() == old(state).forms@.len(),
        final(state).selected_command_id == old(state).selected_command_id,
        final(state).active_run == old(state).active_run,
        final(state).status_message == old(state).status_message,
        match focused_value(*old(state), *registry, form_field) {
            Some((fi, kind, FormValue::Text(_))) => if is_text_kind(kind) {
                &&& forall|i: int| 0 <= i < final(state).forms@.len() && i != fi ==> #[trigger] final(state).forms@[i]
                    == old(state).forms@[i]
                &&& final(state).forms@[fi].command_id == old(state).forms@[fi].command_id
                &&& final(state).forms@[fi].selected_field == old(state).forms@[fi].selected_field
                &&& final(state).forms@[fi].values@.len() == old(state).forms@[fi].values@.len()
                &&& final(state).forms@[fi].values@[form_field as int] matches FormValue::Text(x) && x@ == input_text@
                &&& forall|j: int|
                    0 <= j < old(state).forms@[fi].values@.len() && j != form_field ==> #[trigger] final(state).forms@[fi].values@[j]
                        == old(state).forms@[fi].values@[j]
            } else {
                final(state).forms == old(state).forms
            },
            Some((fi, FieldKind::Boolean, FormValue::Boolean(_))) => {
                &&& forall|i: int| 0 <= i < final(state).forms@.len() && i != fi ==> #[trigger] final(state).forms@[i]
                    == old(state).forms@[i]
                &&& final(state).forms@[fi].command_id == old(state).forms@[fi].command_id
                &&& final(state).forms@[fi].selected_field == old(state).forms@[fi].selected_field
                &&& final(state).forms@[fi].values@ == old(state).forms@[fi].values@.update(
                    form_field as int,
                    FormValue::Boolean(checked),
                )
            },
            _ => final(state).forms == old(state).forms,
        },
{
    let (fi, command) = match focused_form(state, registry) {
        Some(x) => x,
        None => return,
    };
    if form_field >= command.ui.fields.len() || form_field >= state.forms[fi].values.len() {
        return;
    }
    let new_value = match (&state.forms[fi].values[form_field], &command.ui.fields[form_field].kind) {
        (FormValue::Text(_), FieldKind::Text) => FormValue::Text(input_text.to_owned()),
        (FormValue::Text(_), FieldKind::Path) => FormValue::Text(input_text.to_owned()),
        (FormValue::Text(_), FieldKind::BrowsablePath { .. }) => FormValue::Text(input_text.to_owned()),
        (FormValue::Boolean(_), FieldKind::Boolean) => FormValue::Boolean(checked),
        _ => return,
    };
    let mut form = state.forms.remove(fi);
    form.values.set(form_field, new_value);
    state.forms.insert(fi, form);
    assert forall|a: int, b: int|
        0 <= a < state.forms@.len() && 0 <= b < state.forms@.len() && a != b implies #[trigger] state.forms@[a].command_id@
        != #[trigger] state.forms@[b].command_id@ by {
        assert(old(state).forms@[a].command_id@ != old(state).forms@[b].command_id@);
    }
}

} // verus!
