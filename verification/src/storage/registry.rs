//! The Dhara Storage extension: its sections and commands, upserted onto the kernel catalogue.
use std::sync::Arc;

use vstd::prelude::*;

use crate::command::{
    CommandHandler, CommandRegistry, CommandSpec, Extension, SectionSpec, ids_unique, spec_add_section, spec_upsert,
};
use crate::storage::ui::{is_ui, ui_for_command};

verus! {

/// The identity of one product command.
#[derive(Debug, Clone, Copy, PartialEq, Eq)]
pub struct RegisteredCommand {
    pub id: &'static str,
    pub path: &'static [&'static str],
    pub summary: &'static str,
    pub args_summary: &'static str,
    pub section: &'static str,
}

/// Storage product extension — upserts handlers onto kernel base commands and adds product
/// commands. The operations behind the commands (builds, packaging, releases) drive external
/// tools, so the host application supplies their handlers, keyed by command id; a command
/// without one is registered without a handler (and so counts as disabled).
pub struct DharaStorageExtension {
    pub handlers: Vec<(&'static str, Option<Arc<dyn CommandHandler>>)>,
}

/// The first entry of `handlers` with the id `id` holds a handler.
pub open spec fn handler_present(handlers: Seq<(&'static str, Option<Arc<dyn CommandHandler>>)>, id: Seq<char>) -> bool {
    exists|k: int|
        0 <= k < handlers.len() && #[trigger] handlers[k].0@ == id && handlers[k].1 is Some && forall|j: int|
            0 <= j < k ==> #[trigger] handlers[j].0@ != id
}

/// Adds the sections `ss` in order.
pub open spec fn add_sections(old: Seq<SectionSpec>, ss: Seq<SectionSpec>) -> Seq<SectionSpec>
    decreases ss.len(),
{
    if ss.len() == 0 {
        old
    } else {
        add_sections(spec_add_section(old, ss[0]), ss.drop_first())
    }
}

/// Upserts the commands `cs` in order.
pub open spec fn upsert_all(old: Seq<CommandSpec>, cs: Seq<CommandSpec>) -> Seq<CommandSpec>
    decreases cs.len(),
{
    if cs.len() == 0 {
        old
    } else {
        upsert_all(spec_upsert(old, cs[0]), cs.drop_first())
    }
}

/// The sections of the extension, in registration order.
pub open spec fn storage_sections() -> Seq<SectionSpec> {
    seq![
        SectionSpec { name: "build", prompt: "dhara:build> ", summary: "End-to-end repository build workflows" },
        SectionSpec { name: "config", prompt: "drot:config> ", summary: "Repository configuration commands" },
        SectionSpec { name: "version", prompt: "drot:version> ", summary: "Versioning commands" },
        SectionSpec { name: "defs", prompt: "dhara:defs> ", summary: "File definition package commands" },
        SectionSpec { name: "quality", prompt: "dhara:quality> ", summary: "Code quality checks" },
        SectionSpec { name: "native", prompt: "dhara:native> ", summary: "Native sidecar staging" },
        SectionSpec { name: "verify", prompt: "dhara:verify> ", summary: "Package verification" },
        SectionSpec { name: "package", prompt: "dhara:package> ", summary: "NuGet packaging commands" },
        SectionSpec { name: "release", prompt: "dhara:release> ", summary: "Release workflows" },
    ]
}

/// The commands of the extension, in registration order.
pub open spec fn storage_commands() -> Seq<RegisteredCommand> {
    seq![
        RegisteredCommand {
            id: "build.run",
            path: &["build", "run"],
            summary: "Run the full local repository build workflow",
            args_summary: "[--skip-config] [--skip-defs] [--skip-quality] [--skip-docs] [--skip-dotnet] [--skip-native] [--skip-verify] [--configuration <name>]",
            section: "build",
        },
        RegisteredCommand { id: "config.show", path: &["config", "show"], summary: "Show effective repo configuration", args_summary: "", section: "config" },
        RegisteredCommand { id: "config.env.init", path: &["config", "env", "init"], summary: "Create .env.local from .env.example", args_summary: "", section: "config" },
        RegisteredCommand { id: "version.set", path: &["version", "set"], summary: "Set the shared workspace version", args_summary: "<version>", section: "version" },
        RegisteredCommand { id: "version.bump", path: &["version", "bump"], summary: "Bump the shared workspace version", args_summary: "--part <major|minor|patch>", section: "version" },
        RegisteredCommand { id: "defs.pack", path: &["defs", "pack"], summary: "Copy the embedded definitions package", args_summary: "[--output <path>]", section: "defs" },
        RegisteredCommand { id: "defs.build-trid-xml", path: &["defs", "build-trid-xml"], summary: "Build a definitions package from TrID XML", args_summary: "[--input <path>] [--output <path>]", section: "defs" },
        RegisteredCommand { id: "defs.inspect", path: &["defs", "inspect"], summary: "Inspect a definitions package", args_summary: "[--input <path>]", section: "defs" },
        RegisteredCommand { id: "defs.inspect-trid-xml", path: &["defs", "inspect-trid-xml"], summary: "Preview a TrID XML transformation", args_summary: "[--input <path>]", section: "defs" },
        RegisteredCommand { id: "defs.normalize", path: &["defs", "normalize"], summary: "Normalize a definitions package", args_summary: "[--input <path>] [--output <path>]", section: "defs" },
        RegisteredCommand { id: "defs.verify", path: &["defs", "verify"], summary: "Compare two definitions packages", args_summary: "--left <path> --right <path>", section: "defs" },
        RegisteredCommand { id: "defs.sync-embedded", path: &["defs", "sync-embedded"], summary: "Refresh the embedded definitions package", args_summary: "[--input <path>] [--output <path>] [--check]", section: "defs" },
        RegisteredCommand { id: "package.stage-native", path: &["package", "stage-native"], summary: "Build and stage native sidecars", args_summary: "[--configuration <name>]", section: "native" },
        RegisteredCommand { id: "verify.package", path: &["verify", "package"], summary: "Pack and verify the NuGet package", args_summary: "[--configuration <name>] [--version <version>]", section: "verify" },
        RegisteredCommand { id: "package.pack", path: &["package", "pack"], summary: "Pack the NuGet package", args_summary: "[--configuration <name>] [--version <version>]", section: "package" },
        RegisteredCommand { id: "package.publish", path: &["package", "publish"], summary: "Verify and publish the NuGet package", args_summary: "[--dry-run|--execute] [--configuration <name>] [--version <version>] [--source <url>]", section: "package" },
        RegisteredCommand { id: "release.run", path: &["release", "run"], summary: "Run the release workflow", args_summary: "[--skip-cargo] [--skip-nuget] [--configuration <name>] [--source <url>] [--dry-run]", section: "release" },
    ]
}

/// `c` is the command the extension registers for `rc`: its identity, the option schema of its
/// id, a handler exactly when one is supplied for its id, switched on.
pub open spec fn registers(c: CommandSpec, rc: RegisteredCommand, handlers: Seq<(&'static str, Option<Arc<dyn CommandHandler>>)>) -> bool {
    &&& c.id == rc.id
    &&& c.path == rc.path
    &&& c.summary == rc.summary
    &&& c.args_summary == rc.args_summary
    &&& c.section == rc.section
    &&& is_ui(c.ui, rc.id@, rc.summary)
    &&& (c.handler is Some <==> handler_present(handlers, rc.id@))
    &&& !c.is_disabled
    &&& c.disabled_reason is None
}

impl DharaStorageExtension {
    fn sections(&self) -> (r: Vec<SectionSpec>)
        ensures
            r@ == storage_sections(),
    {
        let r = vec![
            SectionSpec { name: "build", prompt: "dhara:build> ", summary: "End-to-end repository build workflows" },
            SectionSpec { name: "config", prompt: "drot:config> ", summary: "Repository configuration commands" },
            SectionSpec { name: "version", prompt: "drot:version> ", summary: "Versioning commands" },
            SectionSpec { name: "defs", prompt: "dhara:defs> ", summary: "File definition package commands" },
            SectionSpec { name: "quality", prompt: "dhara:quality> ", summary: "Code quality checks" },
            SectionSpec { name: "native", prompt: "dhara:native> ", summary: "Native sidecar staging" },
            SectionSpec { name: "verify", prompt: "dhara:verify> ", summary: "Package verification" },
            SectionSpec { name: "package", prompt: "dhara:package> ", summary: "NuGet packaging commands" },
            SectionSpec { name: "release", prompt: "dhara:release> ", summary: "Release workflows" },
        ];
        assert(r@ =~= storage_sections());
        r
    }

    fn commands(&self) -> (r: Vec<RegisteredCommand>)
        ensures
            r@ == storage_commands(),
    {
        let r = vec![
            RegisteredCommand {
                id: "build.run",
                path: &["build", "run"],
                summary: "Run the full local repository build workflow",
                args_summary: "[--skip-config] [--skip-defs] [--skip-quality] [--skip-docs] [--skip-dotnet] [--skip-native] [--skip-verify] [--configuration <name>]",
                section: "build",
            },
            RegisteredCommand { id: "config.show", path: &["config", "show"], summary: "Show effective repo configuration", args_summary: "", section: "config" },
            RegisteredCommand { id: "config.env.init", path: &["config", "env", "init"], summary: "Create .env.local from .env.example", args_summary: "", section: "config" },
            RegisteredCommand { id: "version.set", path: &["version", "set"], summary: "Set the shared workspace version", args_summary: "<version>", section: "version" },
            RegisteredCommand { id: "version.bump", path: &["version", "bump"], summary: "Bump the shared workspace version", args_summary: "--part <major|minor|patch>", section: "version" },
            RegisteredCommand { id: "defs.pack", path: &["defs", "pack"], summary: "Copy the embedded definitions package", args_summary: "[--output <path>]", section: "defs" },
            RegisteredCommand { id: "defs.build-trid-xml", path: &["defs", "build-trid-xml"], summary: "Build a definitions package from TrID XML", args_summary: "[--input <path>] [--output <path>]", section: "defs" },
            RegisteredCommand { id: "defs.inspect", path: &["defs", "inspect"], summary: "Inspect a definitions package", args_summary: "[--input <path>]", section: "defs" },
            RegisteredCommand { id: "defs.inspect-trid-xml", path: &["defs", "inspect-trid-xml"], summary: "Preview a TrID XML transformation", args_summary: "[--input <path>]", section: "defs" },
            RegisteredCommand { id: "defs.normalize", path: &["defs", "normalize"], summary: "Normalize a definitions package", args_summary: "[--input <path>] [--output <path>]", section: "defs" },
            RegisteredCommand { id: "defs.verify", path: &["defs", "verify"], summary: "Compare two definitions packages", args_summary: "--left <path> --right <path>", section: "defs" },
            RegisteredCommand { id: "defs.sync-embedded", path: &["defs", "sync-embedded"], summary: "Refresh the embedded definitions package", args_summary: "[--input <path>] [--output <path>] [--check]", section: "defs" },
            RegisteredCommand { id: "package.stage-native", path: &["package", "stage-native"], summary: "Build and stage native sidecars", args_summary: "[--configuration <name>]", section: "native" },
            RegisteredCommand { id: "verify.package", path: &["verify", "package"], summary: "Pack and verify the NuGet package", args_summary: "[--configuration <name>] [--version <version>]", section: "verify" },
            RegisteredCommand { id: "package.pack", path: &["package", "pack"], summary: "Pack the NuGet package", args_summary: "[--configuration <name>] [--version <version>]", section: "package" },
            RegisteredCommand { id: "package.publish", path: &["package", "publish"], summary: "Verify and publish the NuGet package", args_summary: "[--dry-run|--execute] [--configuration <name>] [--version <version>] [--source <url>]", section: "package" },
            RegisteredCommand { id: "release.run", path: &["release", "run"], summary: "Run the release workflow", args_summary: "[--skip-cargo] [--skip-nuget] [--configuration <name>] [--source <url>] [--dry-run]", section: "release" },
        ];
        assert(r@ =~= storage_commands());
        r
    }
}

/// A copy of the first handler supplied for `id`.
fn handler_for(handlers: &Vec<(&'static str, Option<Arc<dyn CommandHandler>>)>, id: &'static str) -> (r: Option<Arc<dyn CommandHandler>>)
    ensures
        r is Some <==> handler_present(handlers@, id@),
{
    let mut k: usize = 0;
    while k < handlers.len()
        invariant
            k <= handlers@.len(),
            forall|j: int| 0 <= j < k ==> #[trigger] handlers@[j].0@ != id@,
        decreases handlers.len() - k,
    {
        if crate::text::str_eq(handlers[k].0, id) {
            return handlers[k].1.clone();
        }
        k += 1;
    }
    None
}

/// The command registered for `rc`.
fn registered_spec(rc: &RegisteredCommand, handlers: &Vec<(&'static str, Option<Arc<dyn CommandHandler>>)>) -> (c: CommandSpec)
    ensures
        registers(c, *rc, handlers@),
{
    let handler = handler_for(handlers, rc.id);
    CommandSpec {
        id: rc.id,
        path: rc.path,
        summary: rc.summary,
        args_summary: rc.args_summary,
        section: rc.section,
        ui: ui_for_command(rc.id, rc.summary, rc.args_summary),
        handler,
        is_disabled: false,
        disabled_reason: None,
    }
}

impl Extension for DharaStorageExtension {
    /// The extension's sections are added to those of `before`, and one command per product
    /// command, each with its option schema and a handler, upserted onto its commands.
    open spec fn registered(&self, before: CommandRegistry, after: CommandRegistry) -> bool {
        &&& after.section_list() == add_sections(before.section_list(), storage_sections())
        &&& exists|cs: Seq<CommandSpec>|
            cs.len() == storage_commands().len() && (forall|k: int|
                0 <= k < cs.len() ==> registers(#[trigger] cs[k], storage_commands()[k], self.handlers@))
                && after.command_list() == upsert_all(before.command_list(), cs)
    }

    /// Adds the extension's sections, then upserts one command per product command, each with
    /// its option schema and a handler; command ids that were unique stay unique.
    fn register(&self, registry: &mut CommandRegistry)
        ensures
            final(registry).section_list() == add_sections(old(registry).section_list(), storage_sections()),
            exists|cs: Seq<CommandSpec>|
                cs.len() == storage_commands().len() && (forall|k: int|
                    0 <= k < cs.len() ==> registers(#[trigger] cs[k], storage_commands()[k], self.handlers@))
                    && final(registry).command_list() == upsert_all(old(registry).command_list(), cs),
            ids_unique(old(registry).command_list()) ==> ids_unique(final(registry).command_list()),
    {
        let sections = self.sections();
        let ghost start_sections = registry.section_list();
        let mut i: usize = 0;
        assert(storage_sections().skip(0) =~= storage_sections());
        while i < sections.len()
            invariant
                i <= sections@.len(),
                sections@ == storage_sections(),
                registry.wf(),
                registry.command_list() == old(registry).command_list(),
                add_sections(start_sections, storage_sections()) == add_sections(
                    registry.section_list(),
                    storage_sections().skip(i as int),
                ),
            decreases sections.len() - i,
        {
            proof {
                assert(storage_sections().skip(i as int).drop_first() =~= storage_sections().skip(i + 1));
            }
            registry.add_section(sections[i]);
            i += 1;
        }
        let commands = self.commands();
        let ghost start_commands = registry.command_list();
        let ghost mut done: Seq<CommandSpec> = Seq::empty();
        let mut j: usize = 0;
        while j < commands.len()
            invariant
                j <= commands@.len(),
                commands@ == storage_commands(),
                registry.wf(),
                registry.section_list() == add_sections(start_sections, storage_sections()),
                done.len() == j,
                forall|k: int| 0 <= k < j ==> registers(#[trigger] done[k], storage_commands()[k], self.handlers@),
                registry.command_list() == upsert_all(start_commands, done),
                start_commands == old(registry).command_list(),
                ids_unique(old(registry).command_list()) ==> ids_unique(registry.command_list()),
            decreases commands.len() - j,
        {
            let c = registered_spec(&commands[j], &self.handlers);
            proof {
                lemma_upsert_all_push(start_commands, done, c);
            }
            let ghost c_ghost = c;
            registry.upsert_command(c);
            proof {
                done = done.push(c_ghost);
            }
            j += 1;
        }
        proof {
            assert(storage_sections().skip(storage_sections().len() as int) =~= Seq::<SectionSpec>::empty());
        }
    }
}

/// Upserting one more command after a run of upserts.
proof fn lemma_upsert_all_push(old: Seq<CommandSpec>, cs: Seq<CommandSpec>, c: CommandSpec)
    ensures
        upsert_all(old, cs.push(c)) == spec_upsert(upsert_all(old, cs), c),
    decreases cs.len(),
{
    if cs.len() == 0 {
        assert(cs.push(c).drop_first() =~= Seq::<CommandSpec>::empty());
        assert(cs.push(c)[0] == c);
        assert(upsert_all(spec_upsert(old, c), Seq::<CommandSpec>::empty()) == spec_upsert(old, c));
    } else {
        assert(cs.push(c).drop_first() =~= cs.drop_first().push(c));
        assert(cs.push(c)[0] == cs[0]);
        lemma_upsert_all_push(spec_upsert(old, cs[0]), cs.drop_first(), c);
    }
}

} // verus!
