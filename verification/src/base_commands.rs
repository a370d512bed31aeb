//! Base command catalog owned by the kernel. Extensions upsert handlers and product-specific
//! metadata onto these stubs.
use vstd::prelude::*;

use crate::command::{CommandRegistry, CommandSpec, CommandUi, SectionSpec, ids_unique, spec_add_section, spec_upsert};

verus! {

/// `c` is a stub: the given identity and texts, a description with no options, no handler,
/// not switched off.
pub open spec fn is_stub(
    c: CommandSpec,
    id: &'static str,
    path: &'static [&'static str],
    section: &'static str,
    summary: &'static str,
    args_summary: &'static str,
    description: &'static str,
) -> bool {
    &&& c.id == id
    &&& c.path == path
    &&& c.section == section
    &&& c.summary == summary
    &&& c.args_summary == args_summary
    &&& c.ui.description == description
    &&& c.ui.fields@.len() == 0
    &&& !c.ui.quick_run
    &&& !c.ui.supports_cancel
    &&& c.handler is None
    &&& !c.is_disabled
    &&& c.disabled_reason is None
}

/// The `config` section.
pub open spec fn config_section() -> SectionSpec {
    SectionSpec { name: "config", prompt: "drot:config> ", summary: "Repository configuration commands" }
}

/// The `version` section.
pub open spec fn version_section() -> SectionSpec {
    SectionSpec { name: "version", prompt: "drot:version> ", summary: "Versioning commands" }
}

/// The four base stubs, in registration order: `config.show`, `config.env.init`,
/// `version.set`, `version.bump`.
pub open spec fn base_stubs(s: Seq<CommandSpec>) -> bool {
    &&& s.len() == 4
    &&& is_stub(
        s[0],
        "config.show",
        &["config", "show"],
        "config",
        "Show effective repo configuration",
        "",
        "Show the effective repository configuration.",
    )
    &&& is_stub(
        s[1],
        "config.env.init",
        &["config", "env", "init"],
        "config",
        "Create .env.local from .env.example",
        "",
        "Create .env.local from .env.example when missing.",
    )
    &&& is_stub(
        s[2],
        "version.set",
        &["version", "set"],
        "version",
        "Set the shared workspace version",
        "<version>",
        "Set the shared workspace version across manifests.",
    )
    &&& is_stub(
        s[3],
        "version.bump",
        &["version", "bump"],
        "version",
        "Bump the shared workspace version",
        "--part <major|minor|patch>",
        "Bump the shared workspace version by major, minor, or patch.",
    )
}

/// Registers generic DROT command stubs (no handlers until an extension implements them): the
/// `config` and `version` sections, then the four stubs upserted in order (command ids that
/// were unique stay unique).
pub fn register_base_commands(registry: &mut CommandRegistry)
    requires
        old(registry).wf(),
    ensures
        final(registry).wf(),
        final(registry).section_list() == spec_add_section(
            spec_add_section(old(registry).section_list(), config_section()),
            version_section(),
        ),
        exists|s: Seq<CommandSpec>|
            base_stubs(s) && #[trigger] final(registry).command_list() == spec_upsert(
                spec_upsert(spec_upsert(spec_upsert(old(registry).command_list(), s[0]), s[1]), s[2]),
                s[3],
            ),
        ids_unique(old(registry).command_list()) ==> ids_unique(final(registry).command_list()),
{
    registry.add_section(SectionSpec { name: "config", prompt: "drot:config> ", summary: "Repository configuration commands" });
    registry.add_section(SectionSpec { name: "version", prompt: "drot:version> ", summary: "Versioning commands" });
    let c0 = stub(
        "config.show",
        &["config", "show"],
        "config",
        "Show effective repo configuration",
        "",
        "Show the effective repository configuration.",
    );
    let c1 = stub(
        "config.env.init",
        &["config", "env", "init"],
        "config",
        "Create .env.local from .env.example",
        "",
        "Create .env.local from .env.example when missing.",
    );
    let c2 = stub(
        "version.set",
        &["version", "set"],
        "version",
        "Set the shared workspace version",
        "<version>",
        "Set the shared workspace version across manifests.",
    );
    let c3 = stub(
        "version.bump",
        &["version", "bump"],
        "version",
        "Bump the shared workspace version",
        "--part <major|minor|patch>",
        "Bump the shared workspace version by major, minor, or patch.",
    );
    let ghost s = seq![c0, c1, c2, c3];
    registry.upsert_command(c0);
    registry.upsert_command(c1);
    registry.upsert_command(c2);
    registry.upsert_command(c3);
    assert(base_stubs(s));
}

/// A command with a description, no options and no handler.
fn stub(
    id: &'static str,
    path: &'static [&'static str],
    section: &'static str,
    summary: &'static str,
    args_summary: &'static str,
    description: &'static str,
) -> (r: CommandSpec)
    ensures
        is_stub(r, id, path, section, summary, args_summary, description),
{
    CommandSpec {
        id,
        path,
        summary,
        args_summary,
        section,
        ui: CommandUi::empty(description),
        handler: None,
        is_disabled: false,
        disabled_reason: None,
    }
}

} // verus!
