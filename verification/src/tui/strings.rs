//! Keyed UI chrome strings for the TUI.
use vstd::prelude::*;

use crate::text::str_eq;

verus! {

/// The chrome text stored under `key`; `<missing>` for a key that has none.
pub open spec fn spec_t(key: Seq<char>) -> &'static str {
    if key == "tab.info"@ {
        "Info"
    } else if key == "tab.options"@ {
        "Options"
    } else if key == "tab.troubleshooting"@ {
        "Troubleshooting"
    } else if key == "tab.system"@ {
        "System"
    } else if key == "doc.syntax"@ {
        "Syntax"
    } else if key == "doc.options"@ {
        "Options"
    } else if key == "doc.empty"@ {
        "Select a task in the tree to view its description."
    } else if key == "options.empty"@ {
        "Select a task to edit options."
    } else if key == "options.loading"@ {
        "Loading form…"
    } else if key == "options.none"@ {
        "No options for the selected task. Press Run or r."
    } else if key == "trouble.empty"@ {
        "Warnings and errors appear here during a run."
    } else if key == "system.empty"@ {
        "Open this tab to load configuration."
    } else {
        "<missing>"
    }
}

/// Keyed UI chrome strings (see `spec_t`).
pub fn t(key: &str) -> (r: &'static str)
    ensures
        r == spec_t(key@),
{
    if str_eq(key, "tab.info") {
        "Info"
    } else if str_eq(key, "tab.options") {
        "Options"
    } else if str_eq(key, "tab.troubleshooting") {
        "Troubleshooting"
    } else if str_eq(key, "tab.system") {
        "System"
    } else if str_eq(key, "doc.syntax") {
        "Syntax"
    } else if str_eq(key, "doc.options") {
        "Options"
    } else if str_eq(key, "doc.empty") {
        "Select a task in the tree to view its description."
    } else if str_eq(key, "options.empty") {
        "Select a task to edit options."
    } else if str_eq(key, "options.loading") {
        "Loading form…"
    } else if str_eq(key, "options.none") {
        "No options for the selected task. Press Run or r."
    } else if str_eq(key, "trouble.empty") {
        "Warnings and errors appear here during a run."
    } else if str_eq(key, "system.empty") {
        "Open this tab to load configuration."
    } else {
        "<missing>"
    }
}

/// The labels of the four main tabs, in tab order.
pub fn tab_labels() -> (r: [&'static str; 4])
    ensures
        r@ == seq![spec_t("tab.info"@), spec_t("tab.options"@), spec_t("tab.troubleshooting"@), spec_t("tab.system"@)],
{
    let r = [t("tab.info"), t("tab.options"), t("tab.troubleshooting"), t("tab.system")];
    assert(r@ =~= seq![spec_t("tab.info"@), spec_t("tab.options"@), spec_t("tab.troubleshooting"@), spec_t("tab.system"@)]);
    r
}

} // verus!
