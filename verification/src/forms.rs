//! Option forms: the editable values of a command's fields and their serialization into the
//! same argument words the Direct CLI accepts.
use vstd::prelude::*;

use crate::command::{ArgBinding, CommandSpec, FieldKind, FieldSpec, PresetOption, spec_effective_default, str_views, string_views, lemma_string_views_push};
use crate::text::{concat, lemma_position_facts, position_of, push_char, spec_position, str_eq, trim, trim_seq};

verus! {

/// The current value of one field.
#[derive(Debug, Clone, PartialEq, Eq)]
pub enum FormValue {
    Text(String),
    Boolean(bool),
    Select(usize),
}

/// A field value with its text seen as characters.
pub enum FormValueView {
    Text(Seq<char>),
    Boolean(bool),
    Select(usize),
}

impl View for FormValue {
    type V = FormValueView;

    open spec fn view(&self) -> FormValueView {
        match self {
            FormValue::Text(t) => FormValueView::Text(t@),
            FormValue::Boolean(b) => FormValueView::Boolean(*b),
            FormValue::Select(i) => FormValueView::Select(*i),
        }
    }
}

/// The values being edited for one command, and which field has focus.
#[derive(Debug, Clone, PartialEq, Eq)]
pub struct CommandForm {
    pub command_id: &'static str,
    pub selected_field: usize,
    pub values: Vec<FormValue>,
}

/// The values of a form as views.
pub open spec fn value_views(values: Seq<FormValue>) -> Seq<FormValueView> {
    values.map_values(|v: FormValue| v@)
}

/// The plain options of a choice field; empty for other kinds.
pub open spec fn spec_select_options(kind: FieldKind) -> Seq<&'static str> {
    match kind {
        FieldKind::Select(o) => o@,
        FieldKind::Combo(o) => o@,
        FieldKind::Radio(o) => o@,
        _ => Seq::empty(),
    }
}

/// The presets of a preset field.
pub open spec fn spec_preset_options(kind: FieldKind) -> Option<Seq<PresetOption>> {
    match kind {
        FieldKind::Preset(o) => Some(o@),
        _ => None,
    }
}

/// How many choices a field cycles through.
pub open spec fn spec_option_count(kind: FieldKind) -> nat {
    match spec_preset_options(kind) {
        Some(o) => o.len(),
        None => spec_select_options(kind).len(),
    }
}

/// The label shown for choice `index`: a preset label or a plain option, empty when out of
/// range.
pub open spec fn spec_preset_label(kind: FieldKind, index: int) -> Seq<char> {
    match spec_preset_options(kind) {
        Some(o) => if 0 <= index < o.len() {
            o[index].label@
        } else {
            Seq::empty()
        },
        None => if 0 <= index < spec_select_options(kind).len() {
            spec_select_options(kind)[index]@
        } else {
            Seq::empty()
        },
    }
}

/// The keys of a field list.
pub open spec fn field_keys(fields: Seq<FieldSpec>) -> Seq<Seq<char>> {
    fields.map_values(|f: FieldSpec| f.key@)
}

/// The ids of a preset list.
pub open spec fn preset_ids(options: Seq<PresetOption>) -> Seq<Seq<char>> {
    options.map_values(|o: PresetOption| o.id@)
}

/// Index of `x` in `xs`, or 0 when absent.
pub open spec fn position_or_zero(xs: Seq<Seq<char>>, x: Seq<char>) -> int {
    match spec_position(xs, x) {
        Some(i) => i,
        None => 0,
    }
}

/// The value a field starts with: its text default, `true` when the default is the word
/// `true`, or the index of the default choice (the first choice when the default is absent or
/// unknown).
pub open spec fn spec_init_value(field: FieldSpec, tui: bool) -> FormValueView {
    let d = spec_effective_default(field, tui);
    match field.kind {
        FieldKind::Boolean => FormValueView::Boolean(d matches Some(v) && v@ == "true"@),
        FieldKind::Select(o) => FormValueView::Select(choice_index(o@, d) as usize),
        FieldKind::Combo(o) => FormValueView::Select(choice_index(o@, d) as usize),
        FieldKind::Radio(o) => FormValueView::Select(choice_index(o@, d) as usize),
        FieldKind::Preset(o) => FormValueView::Select(preset_index(o@, d) as usize),
        _ => FormValueView::Text(
            match d {
                Some(v) => v@,
                None => Seq::empty(),
            },
        ),
    }
}

/// The starting values of a field list.
pub open spec fn init_values(fields: Seq<FieldSpec>, tui: bool) -> Seq<FormValueView> {
    fields.map_values(|f: FieldSpec| spec_init_value(f, tui))
}

/// Index of the default among plain options.
pub open spec fn choice_index(options: Seq<&'static str>, d: Option<&'static str>) -> int {
    let target = match d {
        Some(v) => v@,
        None => if options.len() > 0 {
            options[0]@
        } else {
            Seq::empty()
        },
    };
    position_or_zero(str_views(options), target)
}

/// Index of the default among presets.
pub open spec fn preset_index(options: Seq<PresetOption>, d: Option<&'static str>) -> int {
    let target = match d {
        Some(v) => v@,
        None => if options.len() > 0 {
            options[0].id@
        } else {
            Seq::empty()
        },
    };
    position_or_zero(preset_ids(options), target)
}

/// The argument words one field contributes; `None` when it is required and left empty.
pub open spec fn spec_field_args(f: FieldSpec, v: FormValueView) -> Option<Seq<Seq<char>>> {
    if f.tui_only {
        Some(Seq::empty())
    } else {
        match (f.binding, v) {
            (ArgBinding::Positional, FormValueView::Text(t)) => {
                let tr = trim_seq(t);
                if f.required && tr.len() == 0 {
                    None
                } else if tr.len() == 0 {
                    Some(Seq::empty())
                } else {
                    Some(seq![tr])
                }
            },
            (ArgBinding::FlagValue(flag), FormValueView::Text(t)) => {
                let tr = trim_seq(t);
                if f.required && tr.len() == 0 {
                    None
                } else if tr.len() == 0 {
                    Some(Seq::empty())
                } else {
                    Some(seq![flag@, tr])
                }
            },
            (ArgBinding::FlagValue(flag), FormValueView::Select(i)) => {
                let opts = spec_select_options(f.kind);
                if i < opts.len() {
                    if flag@ == "__mode"@ {
                        Some(seq!["--"@ + opts[i as int]@])
                    } else {
                        Some(seq![flag@, opts[i as int]@])
                    }
                } else {
                    Some(Seq::empty())
                }
            },
            (ArgBinding::Switch(flag), FormValueView::Boolean(b)) => {
                if (if f.invert_switch {
                    !b
                } else {
                    b
                }) {
                    Some(seq![flag@])
                } else {
                    Some(Seq::empty())
                }
            },
            (ArgBinding::Switch(flag), FormValueView::Select(i)) => {
                if i > 0 {
                    Some(seq![flag@])
                } else {
                    Some(Seq::empty())
                }
            },
            _ => Some(Seq::empty()),
        }
    }
}

/// The argument words of paired fields and values, in field order; the first required empty
/// field makes it an error naming that field.
pub open spec fn spec_build_args(fields: Seq<FieldSpec>, values: Seq<FormValueView>) -> Result<
    Seq<Seq<char>>,
    Seq<char>,
>
    decreases fields.len(),
{
    if fields.len() == 0 || values.len() == 0 {
        Ok(Seq::empty())
    } else {
        match spec_field_args(fields[0], values[0]) {
            None => Err(fields[0].label@ + " is required"@),
            Some(a) => prepend_args(a, spec_build_args(fields.drop_first(), values.drop_first())),
        }
    }
}

/// `a` in front of the words of `r`.
pub open spec fn prepend_args(a: Seq<Seq<char>>, r: Result<Seq<Seq<char>>, Seq<char>>) -> Result<
    Seq<Seq<char>>,
    Seq<char>,
> {
    match r {
        Ok(x) => Ok(a + x),
        Err(e) => Err(e),
    }
}

/// The words of `r` viewed as characters.
pub open spec fn args_view(r: Result<Vec<String>, String>) -> Result<Seq<Seq<char>>, Seq<char>> {
    match r {
        Ok(v) => Ok(string_views(v@)),
        Err(e) => Err(e@),
    }
}

/// The form the values `values` give after writing `v` at index `i`, when that slot holds a
/// value of the same variant; unchanged otherwise.
pub open spec fn set_same_kind(values: Seq<FormValueView>, i: int, v: FormValueView) -> Seq<FormValueView> {
    if 0 <= i < values.len() && same_variant(values[i], v) {
        values.update(i, v)
    } else {
        values
    }
}

/// Two values of the same variant.
pub open spec fn same_variant(a: FormValueView, b: FormValueView) -> bool {
    match (a, b) {
        (FormValueView::Text(_), FormValueView::Text(_)) => true,
        (FormValueView::Boolean(_), FormValueView::Boolean(_)) => true,
        (FormValueView::Select(_), FormValueView::Select(_)) => true,
        _ => false,
    }
}

/// The position of `key` among the fields of `command`.
pub open spec fn key_index(command: CommandSpec, key: Seq<char>) -> Option<int> {
    spec_position(field_keys(command.ui.fields@), key)
}

/// The values after setting the switch field `key` of `command` to `value` (unchanged when
/// there is no such field or it is not a switch).
pub open spec fn spec_set_boolean(values: Seq<FormValueView>, command: CommandSpec, key: Seq<char>, value: bool) -> Seq<FormValueView> {
    match key_index(command, key) {
        Some(i) => set_same_kind(values, i, FormValueView::Boolean(value)),
        None => values,
    }
}

/// The values after selecting `option` in the choice field `key` of `command` (unchanged when
/// there is no such field or `option` is not one of its options).
pub open spec fn spec_set_select_by_value(values: Seq<FormValueView>, command: CommandSpec, key: Seq<char>, option: Seq<char>) -> Seq<FormValueView> {
    match key_index(command, key) {
        Some(i) => match spec_position(str_views(spec_select_options(command.ui.fields@[i].kind)), option) {
            Some(sel) => set_same_kind(values, i, FormValueView::Select(sel as usize)),
            None => values,
        },
        None => values,
    }
}

/// Step `i` forward through `count` slots, wrapping.
pub open spec fn next_index(i: int, count: int) -> int {
    if count == 0 {
        0
    } else {
        (i + 1) % count
    }
}

/// Step `i` backward through `count` slots, wrapping.
pub open spec fn previous_index(i: int, count: int) -> int {
    if count == 0 {
        0
    } else {
        (i + count - 1) % count
    }
}

/// Builds the initial value of `field`.
fn init_field_value(field: &FieldSpec, tui: bool) -> (r: FormValue)
    ensures
        r@ == spec_init_value(*field, tui),
{
    let d = field.effective_default(tui);
    match &field.kind {
        FieldKind::Boolean => {
            let on = match d {
                Some(v) => str_eq(v, "true"),
                None => false,
            };
            FormValue::Boolean(on)
        },
        FieldKind::Select(options) => FormValue::Select(choice_position(options, d)),
        FieldKind::Combo(options) => FormValue::Select(choice_position(options, d)),
        FieldKind::Radio(options) => FormValue::Select(choice_position(options, d)),
        FieldKind::Preset(options) => FormValue::Select(preset_position(options, d)),
        _ => {
            let text = match d {
                Some(v) => v.to_owned(),
                None => String::new(),
            };
            FormValue::Text(text)
        },
    }
}

fn choice_position(options: &'static [&'static str], d: Option<&'static str>) -> (r: usize)
    ensures
        r as int == choice_index(options@, d),
{
    let target = match d {
        Some(v) => v,
        None => if options.len() > 0 {
            options[0]
        } else {
            ""
        },
    };
    match position_of(options, target) {
        Some(i) => i,
        None => 0,
    }
}

fn preset_position(options: &'static [PresetOption], d: Option<&'static str>) -> (r: usize)
    ensures
        r as int == preset_index(options@, d),
{
    let target = match d {
        Some(v) => v,
        None => if options.len() > 0 {
            options[0].id
        } else {
            ""
        },
    };
    let ghost ids = preset_ids(options@);
    let mut i: usize = 0;
    while i < options.len()
        invariant
            i <= options.len(),
            ids == preset_ids(options@),
            d is Some ==> target == d.unwrap(),
            d is None && options@.len() > 0 ==> target == options@[0].id,
            forall|j: int| 0 <= j < i ==> #[trigger] ids[j] != target@,
        decreases options.len() - i,
    {
        assert(ids[i as int] == options@[i as int].id@);
        if str_eq(options[i].id, target) {
            proof {
                crate::text::lemma_position_is(ids, target@, i as int);
            }
            return i;
        }
        i += 1;
    }
    proof {
        assert(ids.len() == options@.len());
        crate::text::lemma_position_is(ids, target@, options.len() as int);
    }
    0
}

/// The plain options of a choice field; empty for other kinds.
pub fn select_options(kind: &FieldKind) -> (r: &'static [&'static str])
    ensures
        r@ == spec_select_options(*kind),
{
    match kind {
        FieldKind::Select(options) => options,
        FieldKind::Combo(options) => options,
        FieldKind::Radio(options) => options,
        _ => &[],
    }
}

/// The presets of a preset field.
pub fn preset_options(kind: &FieldKind) -> (r: Option<&'static [PresetOption]>)
    ensures
        match r {
            Some(o) => spec_preset_options(*kind) == Some(o@),
            None => spec_preset_options(*kind) is None,
        },
{
    match kind {
        FieldKind::Preset(options) => Some(options),
        _ => None,
    }
}

/// The id of preset `index` of a preset field.
pub fn preset_id(kind: &FieldKind, index: usize) -> (r: Option<&'static str>)
    ensures
        match spec_preset_options(*kind) {
            Some(o) => if index < o.len() {
                r == Some(o[index as int].id)
            } else {
                r is None
            },
            None => r is None,
        },
{
    let options = preset_options(kind)?;
    if index < options.len() {
        Some(options[index].id)
    } else {
        None
    }
}

/// How many choices a field cycles through.
pub fn option_count(kind: &FieldKind) -> (r: usize)
    ensures
        r == spec_option_count(*kind),
{
    match preset_options(kind) {
        Some(options) => options.len(),
        None => select_options(kind).len(),
    }
}

/// The label of choice `index` (a preset label or plain option; empty when out of range).
pub fn preset_label(kind: &FieldKind, index: usize) -> (r: &'static str)
    ensures
        r@ == spec_preset_label(*kind, index as int),
{
    proof {
        reveal_strlit("");
    }
    if let Some(options) = preset_options(kind) {
        if index < options.len() {
            return options[index].label;
        }
        return "";
    }
    let options = select_options(kind);
    if index < options.len() {
        options[index]
    } else {
        ""
    }
}

impl CommandForm {
    /// A form with the CLI defaults of every field of `command`.
    pub fn from_command(command: &CommandSpec) -> (r: Self)
        ensures
            r.command_id == command.id,
            r.selected_field == 0,
            value_views(r.values@) == init_values(command.ui.fields@, false),
    {
        Self::from_command_with_defaults(command, false)
    }

    /// A form with the TUI defaults of every field of `command`.
    pub fn from_command_tui(command: &CommandSpec) -> (r: Self)
        ensures
            r.command_id == command.id,
            r.selected_field == 0,
            value_views(r.values@) == init_values(command.ui.fields@, true),
    {
        Self::from_command_with_defaults(command, true)
    }

    fn from_command_with_defaults(command: &CommandSpec, tui: bool) -> (r: Self)
        ensures
            r.command_id == command.id,
            r.selected_field == 0,
            value_views(r.values@) == init_values(command.ui.fields@, tui),
    {
        let fields = &command.ui.fields;
        let mut values: Vec<FormValue> = Vec::new();
        let mut i: usize = 0;
        while i < fields.len()
            invariant
                i <= fields@.len(),
                fields@ == command.ui.fields@,
                values@.len() == i,
                value_views(values@) == init_values(fields@.take(i as int), tui),
            decreases fields.len() - i,
        {
            let v = init_field_value(&fields[i], tui);
            let ghost prev = values@;
            values.push(v);
            proof {
                let now = init_values(fields@.take(i + 1), tui);
                assert forall|j: int| 0 <= j < i + 1 implies #[trigger] value_views(values@)[j] == now[j] by {
                    if j < i {
                        assert(values@[j] == prev[j]);
                        assert(value_views(prev)[j] == init_values(fields@.take(i as int), tui)[j]);
                    }
                }
                assert(value_views(values@) =~= now);
            }
            i += 1;
        }
        assert(fields@.take(fields@.len() as int) =~= fields@);
        CommandForm { command_id: command.id, selected_field: 0, values }
    }

    /// The position of the field `key` of `command`.
    pub fn field_index(&self, command: &CommandSpec, key: &str) -> (r: Option<usize>)
        ensures
            match r {
                Some(i) => key_index(*command, key@) == Some(i as int),
                None => key_index(*command, key@) is None,
            },
    {
        let fields = &command.ui.fields;
        let ghost keys = field_keys(fields@);
        let mut i: usize = 0;
        while i < fields.len()
            invariant
                i <= fields@.len(),
                fields@ == command.ui.fields@,
                keys == field_keys(fields@),
                forall|j: int| 0 <= j < i ==> #[trigger] keys[j] != key@,
            decreases fields.len() - i,
        {
            if str_eq(fields[i].key, key) {
                proof {
                    assert(keys.len() == fields@.len());
                    assert(keys[i as int] == fields@[i as int].key@);
                    crate::text::lemma_position_is(keys, key@, i as int);
                }
                return Some(i);
            }
            assert(keys[i as int] == fields@[i as int].key@);
            i += 1;
        }
        proof {
            assert(keys.len() == fields@.len());
            crate::text::lemma_position_is(keys, key@, fields@.len() as int);
        }
        None
    }

    /// Writes `v` at `index` when the slot there holds a value of the same variant.
    fn set_if_same_kind(&mut self, index: usize, v: FormValue)
        ensures
            final(self).command_id == old(self).command_id,
            final(self).selected_field == old(self).selected_field,
            value_views(final(self).values@) == set_same_kind(value_views(old(self).values@), index as int, v@),
    {
        if index < self.values.len() {
            let same = match (&self.values[index], &v) {
                (FormValue::Text(_), FormValue::Text(_)) => true,
                (FormValue::Boolean(_), FormValue::Boolean(_)) => true,
                (FormValue::Select(_), FormValue::Select(_)) => true,
                _ => false,
            };
            if same {
                self.values.set(index, v);
                assert(value_views(self.values@) =~= value_views(old(self).values@).update(index as int, v@));
            }
        }
    }

    /// Sets the switch field `key` of `command` to `value` (no effect on other kinds).
    pub fn set_boolean(&mut self, command: &CommandSpec, key: &str, value: bool)
        ensures
            final(self).command_id == old(self).command_id,
            final(self).selected_field == old(self).selected_field,
            value_views(final(self).values@) == spec_set_boolean(value_views(old(self).values@), *command, key@, value),
    {
        if let Some(index) = self.field_index(command, key) {
            self.set_if_same_kind(index, FormValue::Boolean(value));
        }
    }

    /// Selects `option` in the choice field `key` of `command`, when it is one of the field's
    /// options.
    pub fn set_select_by_value(&mut self, command: &CommandSpec, key: &str, option: &str)
        ensures
            final(self).command_id == old(self).command_id,
            final(self).selected_field == old(self).selected_field,
            value_views(final(self).values@) == spec_set_select_by_value(value_views(old(self).values@), *command, key@, option@),
    {
        let index = match self.field_index(command, key) {
            Some(i) => i,
            None => return,
        };
        proof {
            lemma_position_facts(field_keys(command.ui.fields@), key@);
        }
        let field = &command.ui.fields[index];
        let options = select_options(&field.kind);
        if let Some(sel) = position_of(options, option) {
            self.set_if_same_kind(index, FormValue::Select(sel));
        }
    }

    /// Sets the choice field `key` of `command` to choice `index`.
    pub fn set_select_index(&mut self, command: &CommandSpec, key: &str, index: usize)
        ensures
            final(self).command_id == old(self).command_id,
            final(self).selected_field == old(self).selected_field,
            value_views(final(self).values@) == match key_index(*command, key@) {
                Some(i) => set_same_kind(value_views(old(self).values@), i, FormValueView::Select(index)),
                None => value_views(old(self).values@),
            },
    {
        if let Some(field_index) = self.field_index(command, key) {
            self.set_if_same_kind(field_index, FormValue::Select(index));
        }
    }

    /// The value of the switch field `key` of `command`.
    pub fn boolean_at(&self, command: &CommandSpec, key: &str) -> (r: Option<bool>)
        ensures
            r == match key_index(*command, key@) {
                Some(i) => if i < self.values@.len() {
                    match self.values@[i] {
                        FormValue::Boolean(b) => Some(b),
                        _ => None,
                    }
                } else {
                    None
                },
                None => None,
            },
    {
        let index = self.field_index(command, key)?;
        if index >= self.values.len() {
            return None;
        }
        match &self.values[index] {
            FormValue::Boolean(value) => Some(*value),
            _ => None,
        }
    }

    /// The option selected in the choice field `key` of `command`.
    pub fn select_label_at<'a>(&self, command: &CommandSpec, key: &str) -> (r: Option<&'a str>)
        ensures
            match key_index(*command, key@) {
                Some(i) => if i < self.values@.len() {
                    match self.values@[i] {
                        FormValue::Select(sel) => if sel < spec_select_options(
                            command.ui.fields@[i].kind,
                        ).len() {
                            r matches Some(l) && l@ == spec_select_options(
                                command.ui.fields@[i].kind,
                            )[sel as int]@
                        } else {
                            r is None
                        },
                        _ => r is None,
                    }
                } else {
                    r is None
                },
                None => r is None,
            },
    {
        let index = match self.field_index(command, key) {
            Some(i) => i,
            None => return None,
        };
        proof {
            lemma_position_facts(field_keys(command.ui.fields@), key@);
        }
        let field = &command.ui.fields[index];
        if index >= self.values.len() {
            return None;
        }
        let sel = match &self.values[index] {
            FormValue::Select(sel) => *sel,
            _ => return None,
        };
        let options = select_options(&field.kind);
        if sel < options.len() {
            Some(options[sel])
        } else {
            None
        }
    }

    /// The value of the focused field.
    pub fn selected_value(&self) -> (r: Option<&FormValue>)
        ensures
            if self.selected_field < self.values@.len() {
                r == Some(&self.values@[self.selected_field as int])
            } else {
                r is None
            },
    {
        if self.selected_field < self.values.len() {
            Some(&self.values[self.selected_field])
        } else {
            None
        }
    }

    /// The value of the focused field, for editing in place.
    pub fn selected_value_mut(&mut self) -> (r: Option<&mut FormValue>)
        ensures
            final(self).command_id == old(self).command_id,
            final(self).selected_field == old(self).selected_field,
            old(self).selected_field < old(self).values@.len() ==> (r matches Some(m) && *m
                == old(self).values@[old(self).selected_field as int]),
            old(self).selected_field < old(self).values@.len() ==> (match r {
                Some(m) => final(self).values@ == old(self).values@.update(
                    old(self).selected_field as int,
                    *final(m),
                ),
                None => false,
            }),
            old(self).selected_field >= old(self).values@.len() ==> (r is None && final(self).values@
                == old(self).values@),
    {
        let i = self.selected_field;
        if i < self.values.len() {
            Some(vec_index_mut(&mut self.values, i))
        } else {
            None
        }
    }

    /// Moves focus to the next of `field_count` fields, wrapping to the first.
    pub fn move_next(&mut self, field_count: usize)
        ensures
            final(self).selected_field == next_index(old(self).selected_field as int, field_count as int),
            final(self).values == old(self).values,
            final(self).command_id == old(self).command_id,
    {
        if field_count == 0 {
            self.selected_field = 0;
            return;
        }
        let r = self.selected_field % field_count;
        proof {
            lemma_next_mod(self.selected_field as int, field_count as int);
        }
        self.selected_field = (r + 1) % field_count;
    }

    /// Moves focus to the previous of `field_count` fields, wrapping to the last.
    pub fn move_previous(&mut self, field_count: usize)
        ensures
            final(self).selected_field == previous_index(old(self).selected_field as int, field_count as int),
            final(self).values == old(self).values,
            final(self).command_id == old(self).command_id,
    {
        if field_count == 0 {
            self.selected_field = 0;
            return;
        }
        let r = self.selected_field % field_count;
        proof {
            lemma_previous_mod(self.selected_field as int, field_count as int);
        }
        proof {
            lemma_previous_wrap(r as int, field_count as int);
        }
        self.selected_field = if r == 0 {
            field_count - 1
        } else {
            r - 1
        };
    }

    /// Types `ch` at the end of the focused text field.
    pub fn insert_char(&mut self, ch: char)
        ensures
            final(self).command_id == old(self).command_id,
            final(self).selected_field == old(self).selected_field,
            value_views(final(self).values@) == match focused_text(*old(self)) {
                Some(t) => value_views(old(self).values@).update(
                    old(self).selected_field as int,
                    FormValueView::Text(t.push(ch)),
                ),
                None => value_views(old(self).values@),
            },
    {
        let i = self.selected_field;
        if i < self.values.len() {
            if let FormValue::Text(t) = &self.values[i] {
                let mut t2 = t.clone();
                push_char(&mut t2, ch);
                self.values.set(i, FormValue::Text(t2));
                assert(value_views(self.values@) =~= value_views(old(self).values@).update(
                    i as int,
                    FormValueView::Text(t@.push(ch)),
                ));
            }
        }
    }

    /// Deletes the last character of the focused text field.
    pub fn backspace(&mut self)
        ensures
            final(self).command_id == old(self).command_id,
            final(self).selected_field == old(self).selected_field,
            value_views(final(self).values@) == match focused_text(*old(self)) {
                Some(t) => value_views(old(self).values@).update(
                    old(self).selected_field as int,
                    FormValueView::Text(
                        if t.len() > 0 {
                            t.drop_last()
                        } else {
                            t
                        },
                    ),
                ),
                None => value_views(old(self).values@),
            },
    {
        let i = self.selected_field;
        if i < self.values.len() {
            if let FormValue::Text(t) = &self.values[i] {
                let mut t2 = t.clone();
                pop_char(&mut t2);
                self.values.set(i, FormValue::Text(t2));
                assert(value_views(self.values@) =~= value_views(old(self).values@).update(
                    i as int,
                    FormValueView::Text(
                        if t@.len() > 0 {
                            t@.drop_last()
                        } else {
                            t@
                        },
                    ),
                ));
            }
        }
    }

    /// Flips the focused switch field.
    pub fn toggle_bool(&mut self)
        ensures
            final(self).command_id == old(self).command_id,
            final(self).selected_field == old(self).selected_field,
            value_views(final(self).values@) == if old(self).selected_field < old(self).values@.len() {
                match old(self).values@[old(self).selected_field as int] {
                    FormValue::Boolean(b) => value_views(old(self).values@).update(
                        old(self).selected_field as int,
                        FormValueView::Boolean(!b),
                    ),
                    _ => value_views(old(self).values@),
                }
            } else {
                value_views(old(self).values@)
            },
    {
        let i = self.selected_field;
        if i < self.values.len() {
            if let FormValue::Boolean(b) = self.values[i] {
                self.values.set(i, FormValue::Boolean(!b));
                assert(value_views(self.values@) =~= value_views(old(self).values@).update(
                    i as int,
                    FormValueView::Boolean(!b),
                ));
            }
        }
    }

    /// Steps the focused choice field to its next option, wrapping.
    pub fn cycle_next_option(&mut self, command: &CommandSpec)
        ensures
            final(self).command_id == old(self).command_id,
            final(self).selected_field == old(self).selected_field,
            value_views(final(self).values@) == match focused_choice(*old(self), *command) {
                Some((index, count)) => value_views(old(self).values@).update(
                    old(self).selected_field as int,
                    FormValueView::Select(next_index(index as int, count as int) as usize),
                ),
                None => value_views(old(self).values@),
            },
    {
        let i = self.selected_field;
        if i < self.values.len() && i < command.ui.fields.len() {
            if let FormValue::Select(index) = self.values[i] {
                let count = option_count(&command.ui.fields[i].kind);
                let next = if count == 0 {
                    0
                } else {
                    proof {
                        lemma_next_mod(index as int, count as int);
                    }
                    (index % count + 1) % count
                };
                self.values.set(i, FormValue::Select(next));
                assert(value_views(self.values@) =~= value_views(old(self).values@).update(
                    i as int,
                    FormValueView::Select(next),
                ));
            }
        }
    }

    /// Steps the focused choice field to its previous option, wrapping.
    pub fn cycle_previous_option(&mut self, command: &CommandSpec)
        ensures
            final(self).command_id == old(self).command_id,
            final(self).selected_field == old(self).selected_field,
            value_views(final(self).values@) == match focused_choice(*old(self), *command) {
                Some((index, count)) => value_views(old(self).values@).update(
                    old(self).selected_field as int,
                    FormValueView::Select(previous_index(index as int, count as int) as usize),
                ),
                None => value_views(old(self).values@),
            },
    {
        let i = self.selected_field;
        if i < self.values.len() && i < command.ui.fields.len() {
            if let FormValue::Select(index) = self.values[i] {
                let count = option_count(&command.ui.fields[i].kind);
                let prev = if count == 0 {
                    0
                } else {
                    let r = index % count;
                    proof {
                        lemma_previous_mod(index as int, count as int);
                        lemma_previous_wrap(r as int, count as int);
                    }
                    if r == 0 {
                        count - 1
                    } else {
                        r - 1
                    }
                };
                self.values.set(i, FormValue::Select(prev));
                assert(value_views(self.values@) =~= value_views(old(self).values@).update(
                    i as int,
                    FormValueView::Select(prev),
                ));
            }
        }
    }

    /// Selects option `option_index` of the radio field at `field_index`.
    pub fn set_radio_index(&mut self, command: &CommandSpec, field_index: usize, option_index: usize)
        ensures
            final(self).command_id == old(self).command_id,
            final(self).selected_field == old(self).selected_field,
            value_views(final(self).values@) == if field_index < command.ui.fields@.len()
                && command.ui.fields@[field_index as int].kind is Radio {
                set_same_kind(
                    value_views(old(self).values@),
                    field_index as int,
                    FormValueView::Select(option_index),
                )
            } else {
                value_views(old(self).values@)
            },
    {
        if field_index >= command.ui.fields.len() {
            return;
        }
        let is_radio = match command.ui.fields[field_index].kind {
            FieldKind::Radio(_) => true,
            _ => false,
        };
        if !is_radio {
            return;
        }
        self.set_if_same_kind(field_index, FormValue::Select(option_index));
    }

    /// The text shown for field `index`: the text itself, `yes`/`no`, or the selected option.
    pub fn display_value(&self, command: &CommandSpec, index: usize) -> (r: String)
        ensures
            r@ == spec_display_value(self.values@, command.ui.fields@, index as int),
    {
        if index >= self.values.len() {
            return String::new();
        }
        match &self.values[index] {
            FormValue::Text(value) => value.clone(),
            FormValue::Boolean(value) => if *value {
                "yes".to_owned()
            } else {
                "no".to_owned()
            },
            FormValue::Select(selected) => {
                if index >= command.ui.fields.len() {
                    return String::new();
                }
                let options = select_options(&command.ui.fields[index].kind);
                if *selected < options.len() {
                    options[*selected].to_owned()
                } else {
                    String::new()
                }
            },
        }
    }

    /// Serializes the form into the argument words of the command (see `spec_build_args`).
    pub fn build_args(&self, command: &CommandSpec) -> (r: Result<Vec<String>, String>)
        ensures
            args_view(r) == spec_build_args(command.ui.fields@, value_views(self.values@)),
    {
        let fields = &command.ui.fields;
        let ghost fv = fields@;
        let ghost vv = value_views(self.values@);
        let mut args: Vec<String> = Vec::new();
        let mut i: usize = 0;
        proof {
            assert(fv.skip(0) =~= fv);
            assert(vv.skip(0) =~= vv);
            assert(string_views(args@) =~= Seq::<Seq<char>>::empty());
            match spec_build_args(fv, vv) {
                Ok(x) => {
                    assert(Seq::<Seq<char>>::empty() + x =~= x);
                },
                Err(_) => {},
            }
        }
        while i < fields.len() && i < self.values.len()
            invariant
                i <= fields@.len(),
                i <= self.values@.len(),
                fv == fields@,
                fields@ == command.ui.fields@,
                vv == value_views(self.values@),
                spec_build_args(fv, vv) == prepend_args(
                    string_views(args@),
                    spec_build_args(fv.skip(i as int), vv.skip(i as int)),
                ),
            decreases fields.len() - i,
        {
            let ghost before = string_views(args@);
            proof {
                assert(fv.skip(i as int).drop_first() =~= fv.skip(i + 1));
                assert(vv.skip(i as int).drop_first() =~= vv.skip(i + 1));
                assert(fv.skip(i as int)[0] == fv[i as int]);
                assert(vv.skip(i as int)[0] == vv[i as int]);
                assert(vv[i as int] == self.values@[i as int]@);
            }
            match field_args(&fields[i], &self.values[i]) {
                None => {
                    let mut message = fields[i].label.to_owned();
                    message.append(" is required");
                    return Err(message);
                },
                Some(words) => {
                    append_words(&mut args, &words);
                    proof {
                        let a = string_views(words@);
                        let rest = spec_build_args(fv.skip(i + 1), vv.skip(i + 1));
                        match rest {
                            Ok(x) => {
                                assert(before + (a + x) =~= (before + a) + x);
                            },
                            Err(_) => {},
                        }
                    }
                },
            }
            i += 1;
        }
        proof {
            let fs = fv.skip(i as int);
            let vs = vv.skip(i as int);
            assert(fs.len() == 0 || vs.len() == 0);
            assert(string_views(args@) + Seq::<Seq<char>>::empty() =~= string_views(args@));
        }
        Ok(args)
    }
}

/// Appends copies of `words` to `args`.
fn append_words(args: &mut Vec<String>, words: &Vec<String>)
    ensures
        string_views(final(args)@) == string_views(old(args)@) + string_views(words@),
{
    let ghost start = string_views(args@);
    let mut k: usize = 0;
    while k < words.len()
        invariant
            k <= words@.len(),
            string_views(args@) == start + string_views(words@.take(k as int)),
        decreases words.len() - k,
    {
        let ghost prev = args@;
        let w = words[k].clone();
        args.push(w);
        proof {
            lemma_string_views_push(prev, w);
            lemma_string_views_push(words@.take(k as int), words@[k as int]);
            assert(words@.take(k + 1) =~= words@.take(k as int).push(words@[k as int]));
            assert(start + string_views(words@.take(k as int)).push(w@) =~= (start + string_views(
                words@.take(k as int),
            )).push(w@));
        }
        k += 1;
    }
    assert(words@.take(words@.len() as int) =~= words@);
}

/// The text of the focused field when it is a text field.
pub open spec fn focused_text(form: CommandForm) -> Option<Seq<char>> {
    if form.selected_field < form.values@.len() {
        match form.values@[form.selected_field as int] {
            FormValue::Text(t) => Some(t@),
            _ => None,
        }
    } else {
        None
    }
}

/// The selected index and option count of the focused field when it is a choice field of
/// `command`.
pub open spec fn focused_choice(form: CommandForm, command: CommandSpec) -> Option<(usize, nat)> {
    let i = form.selected_field as int;
    if i < form.values@.len() && i < command.ui.fields@.len() {
        match form.values@[i] {
            FormValue::Select(index) => Some((index, spec_option_count(command.ui.fields@[i].kind))),
            _ => None,
        }
    } else {
        None
    }
}

/// The display text of value `index` of a form for the fields `fields`.
pub open spec fn spec_display_value(values: Seq<FormValue>, fields: Seq<FieldSpec>, index: int) -> Seq<char> {
    if 0 <= index < values.len() {
        match values[index] {
            FormValue::Text(t) => t@,
            FormValue::Boolean(b) => if b {
                "yes"@
            } else {
                "no"@
            },
            FormValue::Select(sel) => if index < fields.len() && sel < spec_select_options(
                fields[index].kind,
            ).len() {
                spec_select_options(fields[index].kind)[sel as int]@
            } else {
                Seq::empty()
            },
        }
    } else {
        Seq::empty()
    }
}

/// The argument words of one field (see `spec_field_args`).
fn field_args(field: &FieldSpec, value: &FormValue) -> (r: Option<Vec<String>>)
    ensures
        match r {
            Some(w) => spec_field_args(*field, value@) == Some(string_views(w@)),
            None => spec_field_args(*field, value@) is None,
        },
{
    let mut out: Vec<String> = Vec::new();
    if field.tui_only {
        assert(string_views(out@) =~= Seq::<Seq<char>>::empty());
        return Some(out);
    }
    match (&field.binding, value) {
        (ArgBinding::Positional, FormValue::Text(text)) => {
            let trimmed = trim(text.as_str());
            if field.required && (trimmed.as_str().unicode_len() == 0) {
                return None;
            }
            if !(trimmed.as_str().unicode_len() == 0) {
                out.push(trimmed);
            }
        },
        (ArgBinding::FlagValue(flag), FormValue::Text(text)) => {
            let trimmed = trim(text.as_str());
            if field.required && (trimmed.as_str().unicode_len() == 0) {
                return None;
            }
            if !(trimmed.as_str().unicode_len() == 0) {
                out.push((*flag).to_owned());
                out.push(trimmed);
            }
        },
        (ArgBinding::FlagValue(flag), FormValue::Select(index)) => {
            let options = select_options(&field.kind);
            if *index < options.len() {
                if str_eq(flag, "__mode") {
                    out.push(concat("--", options[*index]));
                } else {
                    out.push((*flag).to_owned());
                    out.push(options[*index].to_owned());
                }
            }
        },
        (ArgBinding::Switch(flag), FormValue::Boolean(enabled)) => {
            let emit = if field.invert_switch {
                !*enabled
            } else {
                *enabled
            };
            if emit {
                out.push((*flag).to_owned());
            }
        },
        (ArgBinding::Switch(flag), FormValue::Select(index)) => {
            if *index > 0 {
                out.push((*flag).to_owned());
            }
        },
        _ => {},
    }
    assert(out@.map_values(|s: String| s@) =~= spec_field_args(*field, value@).unwrap());
    Some(out)
}

/// `String::pop`: removes the last character, if any.
#[verifier::external_body]
fn pop_char(s: &mut String)
    ensures
        final(s)@ == if old(s)@.len() > 0 {
            old(s)@.drop_last()
        } else {
            old(s)@
        },
{
    s.pop();
}

/// `&mut v[i]`.
fn vec_index_mut<T>(v: &mut Vec<T>, i: usize) -> (r: &mut T)
    requires
        i < old(v)@.len(),
    ensures
        *r == old(v)@[i as int],
        final(v)@ == old(v)@.update(i as int, *final(r)),
{
    &mut v[i]
}

/// Fields shown only in the TUI are never serialized: whatever value such a field holds, the
/// arguments of the form are the same.
pub proof fn law_tui_only_fields_not_serialized(fields: Seq<FieldSpec>, values: Seq<FormValueView>, i: int, v: FormValueView)
    requires
        0 <= i < values.len(),
        i < fields.len(),
        fields[i].tui_only,
    ensures
        spec_build_args(fields, values.update(i, v)) == spec_build_args(fields, values),
    decreases fields.len(),
{
    if i > 0 {
        assert(values.update(i, v).drop_first() =~= values.drop_first().update(i - 1, v));
        law_tui_only_fields_not_serialized(fields.drop_first(), values.drop_first(), i - 1, v);
    } else {
        assert(values.update(i, v).drop_first() =~= values.drop_first());
    }
}

/// A required field, serialized by its text (a positional or a flag value), left empty or
/// blank.
pub open spec fn required_left_empty(f: FieldSpec, v: FormValueView) -> bool {
    &&& !f.tui_only
    &&& f.required
    &&& (f.binding is Positional || f.binding is FlagValue)
    &&& v matches FormValueView::Text(t) && trim_seq(t).len() == 0
}

/// Building the arguments fails exactly when a required field is left empty, and then names
/// the first such field: "`<label>` is required".
pub proof fn law_build_args_fails_iff_required_empty(fields: Seq<FieldSpec>, values: Seq<FormValueView>)
    ensures
        spec_build_args(fields, values) is Err <==> exists|i: int|
            0 <= i < fields.len() && i < values.len() && #[trigger] required_left_empty(fields[i], values[i]),
        spec_build_args(fields, values) is Err ==> exists|k: int|
            {
                &&& 0 <= k < fields.len()
                &&& k < values.len()
                &&& #[trigger] required_left_empty(fields[k], values[k])
                &&& forall|j: int| 0 <= j < k ==> !required_left_empty(#[trigger] fields[j], values[j])
                &&& spec_build_args(fields, values) == Err::<Seq<Seq<char>>, Seq<char>>(
                    fields[k].label@ + " is required"@,
                )
            },
    decreases fields.len(),
{
    if fields.len() > 0 && values.len() > 0 {
        let (f, v) = (fields[0], values[0]);
        assert(spec_field_args(f, v) is None <==> required_left_empty(f, v));
        if spec_field_args(f, v) is None {
            assert(required_left_empty(fields[0], values[0]));
        } else {
            let (fs, vs) = (fields.drop_first(), values.drop_first());
            law_build_args_fails_iff_required_empty(fs, vs);
            assert forall|i: int| 0 < i < fields.len() && i < values.len() implies required_left_empty(fields[i], values[i])
                == required_left_empty(fs[i - 1], vs[i - 1]) by {
                assert(fs[i - 1] == fields[i]);
                assert(vs[i - 1] == values[i]);
            }
            if spec_build_args(fs, vs) is Err {
                let k = choose|k: int|
                    {
                        &&& 0 <= k < fs.len()
                        &&& k < vs.len()
                        &&& #[trigger] required_left_empty(fs[k], vs[k])
                        &&& forall|j: int| 0 <= j < k ==> !required_left_empty(#[trigger] fs[j], vs[j])
                        &&& spec_build_args(fs, vs) == Err::<Seq<Seq<char>>, Seq<char>>(fs[k].label@ + " is required"@)
                    };
                assert(required_left_empty(fields[k + 1], values[k + 1]));
                assert forall|j: int| 0 <= j < k + 1 implies !required_left_empty(#[trigger] fields[j], values[j]) by {
                    if j > 0 {
                        assert(!required_left_empty(fs[j - 1], vs[j - 1]));
                    }
                }
            } else {
                assert forall|i: int| 0 <= i < fields.len() && i < values.len() implies !#[trigger] required_left_empty(
                    fields[i],
                    values[i],
                ) by {
                    if i > 0 {
                        assert(!required_left_empty(fs[i - 1], vs[i - 1]));
                    }
                }
            }
        }
    }
}

/// An inverted switch names the step it includes: checked, it adds no word (the step runs);
/// unchecked, it adds its skip flag.
pub proof fn law_inverted_switch_emits_skip_flag(f: FieldSpec, checked: bool)
    requires
        f.binding matches ArgBinding::Switch(_),
        f.invert_switch,
        !f.tui_only,
    ensures
        spec_field_args(f, FormValueView::Boolean(checked)) == if checked {
            Some(Seq::<Seq<char>>::empty())
        } else {
            Some(seq![f.binding->Switch_0@])
        },
{
}

/// Selecting an option by its text and reading the label back gives that text: when `key`
/// names a choice field of `command` whose value is a choice, and `option` is one of the
/// field's options (a slice, so no longer than `usize` counts), the field then holds a choice
/// whose option is `option`.
pub proof fn law_select_then_label(values: Seq<FormValueView>, command: CommandSpec, key: Seq<char>, option: Seq<char>)
    requires
        key_index(command, key) matches Some(i) && 0 <= i < values.len() && values[i] is Select
            && str_views(spec_select_options(command.ui.fields@[i].kind)).contains(option)
            && spec_select_options(command.ui.fields@[i].kind).len() <= usize::MAX,
    ensures
        ({
            let i = key_index(command, key)->Some_0;
            let options = spec_select_options(command.ui.fields@[i].kind);
            spec_set_select_by_value(values, command, key, option)[i] matches FormValueView::Select(sel) && sel
                < options.len() && options[sel as int]@ == option
        }),
{
    let i = key_index(command, key)->Some_0;
    let options = str_views(spec_select_options(command.ui.fields@[i].kind));
    crate::text::lemma_position_facts(options, option);
    if spec_position(options, option) is None {
        let j = choose|j: int| 0 <= j < options.len() && #[trigger] options[j] == option;
        assert(options[j] != option);
    }
    let p = spec_position(options, option)->Some_0;
    assert(options[p] == spec_select_options(command.ui.fields@[i].kind)[p]@);
    assert(spec_set_select_by_value(values, command, key, option)[i] == FormValueView::Select(p as usize));
    assert((p as usize) as int == p);
}

/// Stepping a choice forward and then back, or back and then forward, returns to it
/// (`cycle_next_option` and `cycle_previous_option` step the focused choice so).
pub proof fn law_next_then_previous(i: int, count: int)
    requires
        0 <= i < count,
    ensures
        previous_index(next_index(i, count), count) == i,
        next_index(previous_index(i, count), count) == i,
{
    lemma_next_mod(i, count);
    lemma_previous_mod(i, count);
    vstd::arithmetic::div_mod::lemma_small_mod(i as nat, count as nat);
    lemma_previous_wrap(i, count);
    lemma_previous_wrap((i + 1) % count, count);
    if i + 1 < count {
        vstd::arithmetic::div_mod::lemma_small_mod((i + 1) as nat, count as nat);
    } else {
        vstd::arithmetic::div_mod::lemma_mod_self_0(count);
    }
    let p = if i == 0 {
        count - 1
    } else {
        i - 1
    };
    if p + 1 < count {
        vstd::arithmetic::div_mod::lemma_small_mod((p + 1) as nat, count as nat);
    } else {
        vstd::arithmetic::div_mod::lemma_mod_self_0(count);
    }
}

/// A choice stepped forward `n` times.
pub open spec fn next_times(i: int, count: int, n: nat) -> int
    decreases n,
{
    if n == 0 {
        i
    } else {
        next_index(next_times(i, count, (n - 1) as nat), count)
    }
}

/// Stepping a choice forward as many times as there are options returns to it.
pub proof fn law_full_cycle(i: int, count: int)
    requires
        0 <= i < count,
    ensures
        next_times(i, count, count as nat) == i,
{
    lemma_next_times(i, count, count as nat);
    vstd::arithmetic::div_mod::lemma_mod_add_multiples_vanish(i, count);
    vstd::arithmetic::div_mod::lemma_small_mod(i as nat, count as nat);
}

proof fn lemma_next_times(i: int, count: int, n: nat)
    requires
        0 <= i < count,
    ensures
        next_times(i, count, n) == (i + n) % count,
    decreases n,
{
    if n == 0 {
        vstd::arithmetic::div_mod::lemma_small_mod(i as nat, count as nat);
    } else {
        lemma_next_times(i, count, (n - 1) as nat);
        vstd::arithmetic::div_mod::lemma_add_mod_noop(i + n - 1, 1, count);
        if count > 1 {
            vstd::arithmetic::div_mod::lemma_small_mod(1, count as nat);
        } else {
            vstd::arithmetic::div_mod::lemma_mod_self_0(1);
            vstd::arithmetic::div_mod::lemma_mod_bound(i + n - 1, 1);
            vstd::arithmetic::div_mod::lemma_mod_bound(i + n, 1);
            vstd::arithmetic::div_mod::lemma_mod_bound((i + n - 1) % 1 + 1, 1);
        }
    }
}

proof fn lemma_next_mod(i: int, count: int)
    requires
        count > 0,
        i >= 0,
    ensures
        (i % count + 1) % count == (i + 1) % count,
        0 <= i % count < count,
{
    vstd::arithmetic::div_mod::lemma_add_mod_noop(i, 1, count);
    vstd::arithmetic::div_mod::lemma_mod_bound(i, count);
    if count == 1 {
        vstd::arithmetic::div_mod::lemma_mod_bound(i % count + 1, count);
        vstd::arithmetic::div_mod::lemma_mod_bound(i + 1, count);
    } else {
        vstd::arithmetic::div_mod::lemma_small_mod(1, count as nat);
    }
}

proof fn lemma_previous_wrap(r: int, count: int)
    requires
        0 <= r < count,
    ensures
        (r + (count - 1)) % count == if r == 0 {
            count - 1
        } else {
            r - 1
        },
{
    if r == 0 {
        vstd::arithmetic::div_mod::lemma_small_mod((count - 1) as nat, count as nat);
    } else {
        vstd::arithmetic::div_mod::lemma_mod_add_multiples_vanish(r - 1, count);
        vstd::arithmetic::div_mod::lemma_small_mod((r - 1) as nat, count as nat);
    }
}

proof fn lemma_previous_mod(i: int, count: int)
    requires
        count > 0,
        i >= 0,
    ensures
        (i % count + (count - 1)) % count == (i + count - 1) % count,
        0 <= i % count < count,
{
    vstd::arithmetic::div_mod::lemma_add_mod_noop(i, count - 1, count);
    vstd::arithmetic::div_mod::lemma_mod_bound(i, count);
    vstd::arithmetic::div_mod::lemma_small_mod((count - 1) as nat, count as nat);
}

} // verus!
