//! Screen-level decisions of the TUI: tab numbering, moving between option fields and
//! applying a selected preset.
use vstd::prelude::*;

use crate::command::{CommandRegistry, CommandSpec, FieldKind};
use crate::forms::{FormValue, preset_id, spec_preset_options, value_views};
use crate::interactive::{AppState, MainTab, command_index};
use crate::product::ProductHooks;
use crate::text::str_eq;

verus! {

/// The tab shown at position `index` (the info tab for any other position).
pub open spec fn spec_tab_from_index(index: usize) -> MainTab {
    if index == 1 {
        MainTab::Options
    } else if index == 2 {
        MainTab::Troubleshooting
    } else if index == 3 {
        MainTab::SystemConfigs
    } else {
        MainTab::Info
    }
}

/// The position of a tab.
pub open spec fn spec_tab_index(tab: MainTab) -> usize {
    match tab {
        MainTab::Info => 0,
        MainTab::Options => 1,
        MainTab::Troubleshooting => 2,
        MainTab::SystemConfigs => 3,
    }
}

/// The tab at position `index`.
pub fn tab_from_index(index: usize) -> (r: MainTab)
    ensures
        r == spec_tab_from_index(index),
{
    if index == 1 {
        MainTab::Options
    } else if index == 2 {
        MainTab::Troubleshooting
    } else if index == 3 {
        MainTab::SystemConfigs
    } else {
        MainTab::Info
    }
}

/// The position of `tab`.
pub fn tab_index(tab: MainTab) -> (r: usize)
    ensures
        r == spec_tab_index(tab),
{
    match tab {
        MainTab::Info => 0,
        MainTab::Options => 1,
        MainTab::Troubleshooting => 2,
        MainTab::SystemConfigs => 3,
    }
}

/// Numbering the tabs and reading the number back gives the same tab.
pub proof fn law_tab_round_trip(tab: MainTab)
    ensures
        spec_tab_from_index(spec_tab_index(tab)) == tab,
        spec_tab_index(tab) < 4,
{
}

/// Moves the focused option field by `delta` positions among the fields of `command`,
/// wrapping around both ends (`rem_euclid`, taken on the exact sum, which cannot overflow);
/// nothing happens when it has no fields.
pub fn cycle_form_field(command: &CommandSpec, form_field: &mut usize, delta: isize)
    ensures
        command.ui.fields@.len() == 0 ==> *final(form_field) == *old(form_field),
        command.ui.fields@.len() > 0 ==> *final(form_field) as int == (*old(form_field) as int + delta as int)
            % (command.ui.fields@.len() as int),
{
    let count = command.ui.fields.len();
    if count == 0 {
        return;
    }
    let base = *form_field % count;
    proof {
        vstd::arithmetic::div_mod::lemma_mod_bound(*old(form_field) as int, count as int);
    }
    if delta >= 0 {
        let step = (delta as usize) % count;
        proof {
            vstd::arithmetic::div_mod::lemma_add_mod_noop(*old(form_field) as int, delta as int, count as int);
            vstd::arithmetic::div_mod::lemma_mod_bound(delta as int, count as int);
            lemma_wrap_add(base as int, step as int, count as int);
        }
        *form_field = if step >= count - base {
            base - (count - step)
        } else {
            base + step
        };
    } else {
        let magnitude = (-(delta as i128)) as u128;
        let step = (magnitude % (count as u128)) as usize;
        proof {
            let a = *old(form_field) as int;
            let m = count as int;
            let b = magnitude as int;
            assert(b == -(delta as int));
            vstd::arithmetic::div_mod::lemma_sub_mod_noop(a, b, m);
            vstd::arithmetic::div_mod::lemma_mod_bound(b, m);
            assert(step as int == b % m);
            lemma_wrap_sub(base as int, step as int, m);
        }
        *form_field = if base >= step {
            base - step
        } else {
            base + (count - step)
        };
    }
}

/// Adding two remainders and wrapping once is their sum's remainder.
proof fn lemma_wrap_add(a: int, b: int, m: int)
    requires
        0 <= a < m,
        0 <= b < m,
    ensures
        (a + b) % m == if b >= m - a {
            a - (m - b)
        } else {
            a + b
        },
{
    if b >= m - a {
        vstd::arithmetic::div_mod::lemma_mod_sub_multiples_vanish(a + b, m);
        vstd::arithmetic::div_mod::lemma_small_mod((a + b - m) as nat, m as nat);
    } else {
        vstd::arithmetic::div_mod::lemma_small_mod((a + b) as nat, m as nat);
    }
}

/// Subtracting a remainder and wrapping once is the difference's remainder.
proof fn lemma_wrap_sub(a: int, b: int, m: int)
    requires
        0 <= a < m,
        0 <= b < m,
    ensures
        (a - b) % m == if a >= b {
            a - b
        } else {
            a + (m - b)
        },
{
    if a >= b {
        vstd::arithmetic::div_mod::lemma_small_mod((a - b) as nat, m as nat);
    } else {
        vstd::arithmetic::div_mod::lemma_mod_add_multiples_vanish(a - b, m);
        vstd::arithmetic::div_mod::lemma_small_mod((m + a - b) as nat, m as nat);
    }
}

/// The form index and preset id `apply_preset_if_selected` would apply: the selected command
/// is in `registry`, field `field_index` of it is a preset field, its form holds a choice
/// naming a preset, and that preset is not `custom`.
pub open spec fn preset_to_apply(state: AppState, registry: CommandRegistry, field_index: usize) -> Option<(int, &'static str)> {
    match state.selected_command_id {
        None => None,
        Some(id) => match command_index(registry.command_list(), id@) {
            None => None,
            Some(k) => {
                let command = registry.command_list()[k];
                if field_index < command.ui.fields@.len() && command.ui.fields@[field_index as int].kind is Preset {
                    let kind = command.ui.fields@[field_index as int].kind;
                    match crate::interactive::form_index(state.forms@, command.id@) {
                        None => None,
                        Some(fi) => if field_index < state.forms@[fi].values@.len() {
                            match state.forms@[fi].values@[field_index as int] {
                                FormValue::Select(index) => match spec_preset_options(kind) {
                                    Some(o) => if index < o.len() && o[index as int].id@ != "custom"@ {
                                        Some((fi, o[index as int].id))
                                    } else {
                                        None
                                    },
                                    None => None,
                                },
                                _ => None,
                            }
                        } else {
                            None
                        },
                    }
                } else {
                    None
                }
            },
        },
    }
}

/// Applies the preset chosen in the preset field `field_index` of the selected command's form,
/// through the product hooks (see `preset_to_apply`); the `custom` preset and anything else
/// leave the session unchanged.
pub fn apply_preset_if_selected(state: &mut AppState, registry: &CommandRegistry, field_index: usize, hooks: Option<&dyn ProductHooks>)
    requires
        old(state).wf(),
    ensures
        final(state).wf(),
        (preset_to_apply(*old(state), *registry, field_index) is None || hooks is None) ==> final(state).forms
            == old(state).forms,
        final(state).forms@.len() == old(state).forms@.len(),
        forall|i: int|
            0 <= i < final(state).forms@.len() ==> (#[trigger] final(state).forms@[i]).command_id == old(
                state,
            ).forms@[i].command_id,
        preset_to_apply(*old(state), *registry, field_index) matches Some((fi, _)) ==> forall|i: int|
            0 <= i < final(state).forms@.len() && i != fi ==> #[trigger] final(state).forms@[i] == old(state).forms@[i],
        hooks is Some && preset_to_apply(*old(state), *registry, field_index) is Some ==> {
            let (fi, id) = preset_to_apply(*old(state), *registry, field_index)->Some_0;
            &&& final(state).forms@[fi].selected_field == old(state).forms@[fi].selected_field
            &&& value_views(final(state).forms@[fi].values@) == hooks->Some_0.preset_values(
                value_views(old(state).forms@[fi].values@),
                registry.command_list()[command_index(
                    registry.command_list(),
                    old(state).selected_command_id->Some_0@,
                )->Some_0],
                id@,
            )
        },
        crate::interactive::same_but_forms(*final(state), *old(state)),
{
    let command = match state.selected_command(registry) {
        Some(c) => c,
        None => return,
    };
    if field_index >= command.ui.fields.len() {
        return;
    }
    let field = &command.ui.fields[field_index];
    let is_preset = match field.kind {
        FieldKind::Preset(_) => true,
        _ => false,
    };
    if !is_preset {
        return;
    }
    let mut fi: usize = 0;
    let mut found = false;
    while fi < state.forms.len() && !found
        invariant
            fi <= state.forms@.len(),
            found ==> fi < state.forms@.len() && state.forms@[fi as int].command_id@ == command.id@,
            !found ==> forall|j: int| 0 <= j < fi ==> #[trigger] state.forms@[j].command_id@ != command.id@,
        decreases state.forms.len() - fi + (if found { 0int } else { 1int }),
    {
        if str_eq(state.forms[fi].command_id, command.id) {
            found = true;
        } else {
            fi += 1;
        }
    }
    if !found {
        return;
    }
    proof {
        let k = choose|k: int| 0 <= k < state.forms@.len() && #[trigger] state.forms@[k].command_id@ == command.id@;
        if k != fi {
            assert(state.forms@[k].command_id@ != state.forms@[fi as int].command_id@);
        }
    }
    if field_index >= state.forms[fi].values.len() {
        return;
    }
    let index = match state.forms[fi].values[field_index] {
        FormValue::Select(i) => i,
        _ => return,
    };
    let selected = match preset_id(&field.kind, index) {
        Some(p) => p,
        None => return,
    };
    if str_eq(selected, "custom") {
        return;
    }
    let h = match hooks {
        Some(h) => h,
        None => return,
    };
    let mut form = state.forms.remove(fi);
    h.apply_tui_preset(&mut form, command, selected);
    state.forms.insert(fi, form);
    assert forall|a: int, b: int|
        0 <= a < state.forms@.len() && 0 <= b < state.forms@.len() && a != b implies #[trigger] state.forms@[a].command_id@
        != #[trigger] state.forms@[b].command_id@ by {
        assert(old(state).forms@[a].command_id@ != old(state).forms@[b].command_id@);
    }
}

} // verus!
