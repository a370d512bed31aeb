use std::sync::Arc;

use drot::base_commands::register_base_commands;
use drot::command::{CommandHandler, CommandRegistry, CommandSpec, Extension};
use drot::context::{CommandResult, ToolContext};
use drot::forms::CommandForm;
use drot::product::ProductHooks;
use drot::storage::hooks::{StorageProductHooks, initialize_tui_form};
use drot::storage::native_rids::{
    is_rid_buildable_on_host, is_rid_native_on_host, native_lib_filename, package_native_path, platform,
    platform_target, staging_runtimes_on_host,
};
use drot::storage::presets::{apply_form_preset, default_preset_id};
use drot::storage::registry::DharaStorageExtension;
use drot::storage::strings::s;
use drot::storage::ui::ui_for_command;

struct Done;

impl CommandHandler for Done {
    fn run(&self, _: &ToolContext, _: &[String]) -> Result<CommandResult, String> {
        Ok(CommandResult::with_message("done".to_owned()))
    }
}

const IDS: &[&str] = &[
    "build.run",
    "config.show",
    "config.env.init",
    "version.set",
    "version.bump",
    "defs.pack",
    "defs.build-trid-xml",
    "defs.inspect",
    "defs.inspect-trid-xml",
    "defs.normalize",
    "defs.verify",
    "defs.sync-embedded",
    "package.stage-native",
    "verify.package",
    "package.pack",
    "package.publish",
    "release.run",
];

fn storage_extension() -> DharaStorageExtension {
    let handler: Arc<dyn CommandHandler> = Arc::new(Done);
    DharaStorageExtension { handlers: IDS.iter().map(|id| (*id, Some(handler.clone()))).collect() }
}

fn registry_with_storage() -> CommandRegistry {
    let mut registry = CommandRegistry::new();
    register_base_commands(&mut registry);
    storage_extension().register(&mut registry);
    registry
}

fn build_run_command(registry: &CommandRegistry) -> &CommandSpec {
    registry.commands().find(|command| command.id == "build.run").expect("build.run registered")
}

#[test]
fn package_native_paths_use_daemon_sidecar_names() {
    assert_eq!(package_native_path("win-x64").unwrap(), "runtimes/win-x64/native/dhara-sd.exe");
    assert_eq!(package_native_path("linux-arm64").unwrap(), "runtimes/linux-arm64/native/dhara-sd");
    assert_eq!(package_native_path("osx-arm64").unwrap(), "runtimes/osx-arm64/native/dhara-sd");
}

#[test]
fn buildable_runtimes_respect_host_arch_on_linux() {
    assert!(is_rid_buildable_on_host("linux-x64", "linux", "x86_64"));
    assert!(!is_rid_buildable_on_host("linux-arm64", "linux", "x86_64"));
    assert!(is_rid_buildable_on_host("linux-arm64", "linux", "aarch64"));
    assert!(!is_rid_buildable_on_host("linux-x64", "linux", "aarch64"));
    assert!(!is_rid_buildable_on_host("win-x64", "linux", "x86_64"));
}

#[test]
fn native_runtimes_exclude_cross_compile_on_windows_x64() {
    assert!(is_rid_native_on_host("win-x64", "windows", "x86_64"));
    assert!(!is_rid_native_on_host("win-arm64", "windows", "x86_64"));
    assert!(is_rid_buildable_on_host("win-arm64", "windows", "x86_64"));
}

#[test]
fn staging_runtimes_toggle_cross_native_on_windows_x64() {
    let all = vec!["win-x64".to_owned(), "win-arm64".to_owned()];
    assert_eq!(staging_runtimes_on_host(&all, false, "windows", "x86_64"), vec!["win-x64".to_owned()]);
    assert_eq!(
        staging_runtimes_on_host(&all, true, "windows", "x86_64"),
        vec!["win-x64".to_owned(), "win-arm64".to_owned()]
    );
}

#[test]
fn unknown_runtime_is_an_error() {
    assert_eq!(
        native_lib_filename("plan9-x64").unwrap_err(),
        "unsupported runtime identifier for daemon sidecar name: plan9-x64"
    );
    assert!(package_native_path("plan9-x64").is_err());
    assert_eq!(platform("win-arm64").unwrap(), Some("ARM64"));
    assert_eq!(platform_target("win-arm64").unwrap(), Some("arm64"));
    assert_eq!(platform("linux-x64").unwrap(), None);
    assert_eq!(platform("mac").unwrap_err(), "unsupported runtime for Platform inference: mac");
    assert_eq!(platform_target("mac").unwrap_err(), "unsupported runtime for PlatformTarget inference: mac");
}

#[test]
fn macos_builds_only_its_own_rid() {
    let all = vec!["win-x64".to_owned(), "osx-arm64".to_owned(), "linux-x64".to_owned()];
    assert_eq!(staging_runtimes_on_host(&all, true, "macos", "aarch64"), vec!["osx-arm64".to_owned()]);
    assert_eq!(staging_runtimes_on_host(&all, false, "freebsd", "x86_64"), Vec::<String>::new());
}

#[test]
fn registration_adds_expected_sections_and_commands() {
    let registry = registry_with_storage();

    let sections = registry.sections().map(|section| section.name).collect::<Vec<_>>();
    assert_eq!(
        sections,
        vec!["build", "config", "defs", "native", "package", "quality", "release", "verify", "version"]
    );

    let commands = registry.commands().map(|command| command.id).collect::<Vec<_>>();
    assert!(commands.contains(&"build.run"));
    assert!(commands.contains(&"config.show"));
    assert!(commands.contains(&"defs.inspect-trid-xml"));
    assert!(commands.contains(&"verify.package"));
    assert!(commands.contains(&"release.run"));
    assert!(registry.commands().all(|command| !command.ui.description.trim().is_empty()));
    assert!(registry.commands().find(|c| c.id == "version.bump").is_some_and(|c| !c.is_effectively_disabled()));
}

#[test]
fn commands_without_a_supplied_handler_stay_disabled() {
    let mut registry = CommandRegistry::new();
    register_base_commands(&mut registry);
    DharaStorageExtension { handlers: Vec::new() }.register(&mut registry);
    assert!(registry.commands().all(|c| c.is_effectively_disabled()));
    assert_eq!(
        registry.commands().find(|c| c.id == "config.show").unwrap().ui.description,
        s("cmd.config.show.description")
    );
}

#[test]
fn base_commands_are_stubs_without_handlers() {
    let mut registry = CommandRegistry::new();
    register_base_commands(&mut registry);
    let ids: Vec<&str> = registry.commands().map(|c| c.id).collect();
    assert_eq!(ids, vec!["config.show", "config.env.init", "version.set", "version.bump"]);
    assert!(registry.commands().all(|c| c.is_effectively_disabled()));
    let names: Vec<&str> = registry.sections().map(|s| s.name).collect();
    assert_eq!(names, vec!["config", "version"]);
}

#[test]
fn default_preset_is_local_integration_for_build_run() {
    assert_eq!(default_preset_id("build.run"), Some("local-integration"));
    assert_eq!(default_preset_id("release.run"), Some("dry-run"));
    assert_eq!(default_preset_id("config.show"), None);
}

#[test]
fn local_integration_preset_serializes_debug_argv() {
    let registry = registry_with_storage();
    let command = build_run_command(&registry);
    let mut form = CommandForm::from_command_tui(command);
    apply_form_preset(&mut form, command, "local-integration");

    assert_eq!(form.select_label_at(command, "configuration"), Some("Debug"));
    assert_eq!(form.boolean_at(command, "step_verify"), Some(false));

    let args = form.build_args(command).expect("argv");
    assert!(args.contains(&"--configuration".to_owned()));
    assert!(args.contains(&"Debug".to_owned()));
    assert!(args.contains(&"--skip-verify".to_owned()));
    assert!(args.contains(&"--skip-docs".to_owned()));
}

#[test]
fn production_parity_preset_omits_skip_verify() {
    let registry = registry_with_storage();
    let command = build_run_command(&registry);
    let mut form = CommandForm::from_command_tui(command);
    apply_form_preset(&mut form, command, "production-parity");

    let args = form.build_args(command).expect("argv");
    assert!(args.contains(&"--configuration".to_owned()));
    assert!(args.contains(&"Release".to_owned()));
    assert!(!args.contains(&"--skip-verify".to_owned()));
}

#[test]
fn release_presets_toggle_dry_run() {
    let registry = registry_with_storage();
    let command = registry.commands().find(|c| c.id == "release.run").unwrap();
    let mut form = CommandForm::from_command_tui(command);
    initialize_tui_form(&mut form, command);
    let args = form.build_args(command).unwrap();
    assert!(args.contains(&"--dry-run".to_owned()));
    assert!(args.contains(&"--skip-cargo".to_owned()));
    apply_form_preset(&mut form, command, "full-release");
    let args = form.build_args(command).unwrap();
    assert!(!args.contains(&"--dry-run".to_owned()));
    assert!(!args.contains(&"--skip-nuget".to_owned()));
}

#[test]
fn unknown_preset_changes_nothing() {
    let registry = registry_with_storage();
    let command = build_run_command(&registry);
    let mut form = CommandForm::from_command_tui(command);
    let before = form.clone();
    apply_form_preset(&mut form, command, "custom");
    assert_eq!(form, before);
}

#[test]
fn product_hooks_describe_the_storage_repository() {
    let hooks = StorageProductHooks;
    assert_eq!(hooks.cargo_workspace_deps(), &["dhara_storage_core", "dhara_storage"]);
    assert_eq!(hooks.embedded_defs_relative(), "core/dhara_storage/resources/filedefs.dat");
    assert_eq!(hooks.embedded_defs_dir_relative(), "core/dhara_storage/resources");
}

#[test]
fn ui_strings_and_schemas() {
    assert_eq!(s("group.paths"), "Paths");
    assert_eq!(s("no.such.key"), "<missing>");
    let ui = ui_for_command("version.bump", "Bump", "");
    assert_eq!(ui.fields.len(), 1);
    assert_eq!(ui.fields[0].key, "part");
    let fallback = ui_for_command("quality.all", "Run all checks", "");
    assert_eq!(fallback.description, "Run all checks");
    assert!(fallback.fields.is_empty());
    let build = ui_for_command("build.run", "x", "");
    let keys: Vec<&str> = build.fields.iter().map(|f| f.key).collect();
    assert_eq!(
        keys,
        vec![
            "preset",
            "step_config",
            "step_defs",
            "step_quality",
            "step_docs",
            "step_dotnet",
            "step_native",
            "step_verify",
            "native_scope",
            "configuration"
        ]
    );
}
