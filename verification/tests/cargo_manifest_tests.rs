use drot::cargo_manifest::{cargo_toml_needs_sync, sync_cargo_toml, try_sync_cargo_toml};
use drot::repo_config::{
    CiConfig, ConfigDriftItem, ConfigDriftKind, DharaRepoConfig, NuGetConfig, ProductConfig, TargetsConfig,
    VersionConfig, VersionPart, bump_workspace_version, cargo_drift, csproj_drift, drift_touches, package_projects,
    sync_csproj,
};

const DEPS: &[&str] = &["dhara_storage_core", "dhara_storage"];

fn sample_config() -> DharaRepoConfig {
    DharaRepoConfig {
        versions: VersionConfig { workspace: "0.2.0".to_owned() },
        product: ProductConfig {
            authors: vec!["Naveen Dharmathunga".to_owned()],
            repository_url: "https://github.com/D-Naveenz/rheo_storage".to_owned(),
            project_url: "https://github.com/D-Naveenz/rheo_storage".to_owned(),
            license: None,
        },
        nuget: NuGetConfig { source: "https://api.nuget.org/v3/index.json".to_owned() },
        ci: CiConfig {
            smoke_project: "src/bindings/csharp/Dhara.Storage.ConsumerSmoke/Dhara.Storage.ConsumerSmoke.csproj"
                .to_owned(),
            package_project: "src/bindings/csharp/Dhara.Storage/Dhara.Storage.csproj".to_owned(),
            managed_package_projects: Vec::new(),
            tests_project: "src/bindings/csharp/Dhara.Storage.Tests/Dhara.Storage.Tests.csproj".to_owned(),
            native_runtimes: vec!["win-x64".to_owned(), "linux-x64".to_owned()],
            host_runtime_smoke: "win-x64".to_owned(),
            aot_runtime_smoke: "win-x64".to_owned(),
        },
        targets: TargetsConfig {
            rust_targets: vec![
                ("linux-x64".to_owned(), "x86_64-unknown-linux-gnu".to_owned()),
                ("win-x64".to_owned(), "x86_64-pc-windows-msvc".to_owned()),
            ],
        },
    }
}

const OLD_MANIFEST: &str = "[workspace]\n[workspace.package]\nversion = \"0.1.0\"\n[workspace.dependencies]\ndhara_storage_core = { version = \"0.1.0\", path = \"src/core/dhara_storage_core\" }\ndhara_storage = { version = \"0.1.0\", path = \"src/core/dhara_storage\" }\n";

#[test]
fn sync_cargo_toml_updates_workspace_metadata() {
    let config = sample_config();
    let updated = sync_cargo_toml(OLD_MANIFEST, &config, DEPS).unwrap();

    assert!(updated.contains("version = \"0.2.0\""));
    assert!(updated.contains(
        "dhara_storage_core = { version = \"0.2.0\", path = \"src/core/dhara_storage_core\" }"
    ));
    assert!(updated.contains("dhara_storage = { version = \"0.2.0\", path = \"src/core/dhara_storage\" }"));
    assert!(updated.contains("authors = [\"Naveen Dharmathunga\"]"));
    assert!(updated.contains("repository = \"https://github.com/D-Naveenz/rheo_storage\""));
    assert!(updated.contains("homepage = \"https://github.com/D-Naveenz/rheo_storage\""));
}

#[test]
fn cargo_toml_needs_sync_ignores_line_endings_when_metadata_matches() {
    let config = sample_config();
    let formatted = "[workspace]\r\n[workspace.package]\r\nversion = \"0.2.0\"\r\nauthors = [\"Naveen Dharmathunga\"]\r\nrepository = \"https://github.com/D-Naveenz/rheo_storage\"\r\nhomepage = \"https://github.com/D-Naveenz/rheo_storage\"\r\n[workspace.dependencies]\r\ndhara_storage_core = { version = \"0.2.0\", path = \"src/core/dhara_storage_core\" }\r\ndhara_storage = { version = \"0.2.0\", path = \"src/core/dhara_storage\" }\r\n";

    assert!(!cargo_toml_needs_sync(formatted, &config, DEPS).unwrap());
    assert_eq!(sync_cargo_toml(formatted, &config, DEPS).unwrap(), formatted);
}

#[test]
fn a_synced_manifest_needs_no_further_sync() {
    let mut config = sample_config();
    config.product.license = Some("MIT".to_owned());
    assert!(cargo_toml_needs_sync(OLD_MANIFEST, &config, DEPS).unwrap());
    let once = sync_cargo_toml(OLD_MANIFEST, &config, DEPS).unwrap();
    assert!(once.contains("license = \"MIT\""));
    assert!(!cargo_toml_needs_sync(&once, &config, DEPS).unwrap());
    assert_eq!(sync_cargo_toml(&once, &config, DEPS).unwrap(), once);

    config.product.license = None;
    let twice = sync_cargo_toml(&once, &config, DEPS).unwrap();
    assert!(!twice.contains("license"));
    assert!(!cargo_toml_needs_sync(&twice, &config, DEPS).unwrap());
}

#[test]
fn missing_tables_are_created_and_bad_input_reported() {
    let config = sample_config();
    let created = sync_cargo_toml("", &config, DEPS).unwrap();
    assert!(!cargo_toml_needs_sync(&created, &config, DEPS).unwrap());

    assert!(cargo_toml_needs_sync("not = [valid", &config, DEPS).unwrap());
    assert_eq!(sync_cargo_toml("not = [valid", &config, DEPS), Err("failed to parse Cargo.toml".to_owned()));

    let mut bad = sample_config();
    bad.versions.workspace = "one".to_owned();
    assert_eq!(
        cargo_toml_needs_sync(OLD_MANIFEST, &bad, DEPS),
        Err("invalid rust workspace version: one".to_owned())
    );

    let plain_dep = "[workspace.package]\nversion = \"0.2.0\"\n[workspace.dependencies]\ndhara_storage = \"0.1.0\"\n";
    assert_eq!(try_sync_cargo_toml(plain_dep, &config, DEPS), None);
    assert_eq!(
        try_sync_cargo_toml(OLD_MANIFEST, &config, DEPS),
        Some(sync_cargo_toml(OLD_MANIFEST, &config, DEPS))
    );
}

#[test]
fn drift_items_name_what_differs() {
    let config = sample_config();
    assert_eq!(
        cargo_drift(&config, DEPS, OLD_MANIFEST),
        Ok(Some(ConfigDriftItem {
            kind: ConfigDriftKind::WorkspaceCargoToml,
            summary: "Cargo.toml workspace metadata -> 0.2.0".to_owned(),
        }))
    );
    let synced = sync_cargo_toml(OLD_MANIFEST, &config, DEPS).unwrap();
    assert_eq!(cargo_drift(&config, DEPS, &synced), Ok(None));

    let stale = r#"<Project><PropertyGroup><Version>0.1.0</Version></PropertyGroup></Project>"#;
    let item = csproj_drift(&config, "pkg/P.csproj", stale).unwrap().unwrap();
    assert_eq!(item.kind, ConfigDriftKind::PackageCsproj);
    assert_eq!(item.summary, "shared product/version -> pkg/P.csproj");
    assert_eq!(csproj_drift(&config, "pkg/P.csproj", "<Project>"), Err("failed to parse package csproj".to_owned()));

    let items = vec![item];
    assert!(drift_touches(&items, ConfigDriftKind::PackageCsproj));
    assert!(!drift_touches(&items, ConfigDriftKind::WorkspaceCargoToml));
}

const FORMATTED_MANIFEST: &str = "[workspace]\r\n[workspace.package]\r\nversion = \"0.2.0\"\r\nauthors = [\"Naveen Dharmathunga\"]\r\nrepository = \"https://github.com/D-Naveenz/rheo_storage\"\r\nhomepage = \"https://github.com/D-Naveenz/rheo_storage\"\r\n[workspace.dependencies]\r\ndhara_storage_core = { version = \"0.2.0\", path = \"src/core/dhara_storage_core\" }\r\ndhara_storage = { version = \"0.2.0\", path = \"src/core/dhara_storage\" }\r\n";

#[test]
fn detect_config_drift_ignores_cargo_toml_formatting() {
    let config = sample_config();
    let drifts: Vec<ConfigDriftItem> = cargo_drift(&config, DEPS, FORMATTED_MANIFEST).unwrap().into_iter().collect();
    assert!(!drifts.iter().any(|item| item.kind == ConfigDriftKind::WorkspaceCargoToml));
}

#[test]
fn detect_config_drift_reports_workspace_cargo_mismatch() {
    let config = sample_config();
    let drifts: Vec<ConfigDriftItem> = cargo_drift(&config, DEPS, OLD_MANIFEST).unwrap().into_iter().collect();
    assert!(drifts
        .iter()
        .any(|item| item.kind == ConfigDriftKind::WorkspaceCargoToml && item.summary.contains("0.2.0")));
}

#[test]
fn apply_config_drift_writes_workspace_cargo_from_config() {
    let config = sample_config();
    let drifts: Vec<ConfigDriftItem> = cargo_drift(&config, DEPS, OLD_MANIFEST).unwrap().into_iter().collect();
    assert!(drift_touches(&drifts, ConfigDriftKind::WorkspaceCargoToml));
    let cargo = sync_cargo_toml(OLD_MANIFEST, &config, DEPS).unwrap();
    assert!(cargo.contains("version = \"0.2.0\""));
    let after: Vec<ConfigDriftItem> = cargo_drift(&config, DEPS, &cargo).unwrap().into_iter().collect();
    assert!(!after.iter().any(|item| item.kind == ConfigDriftKind::WorkspaceCargoToml));
}

#[test]
fn apply_config_drift_syncs_all_package_projects() {
    let mut config = sample_config();
    let managed_relative =
        "src/bindings/csharp/Dhara.Storage.Extensions.Hosting/Dhara.Storage.Extensions.Hosting.csproj";
    config.ci.managed_package_projects = vec![managed_relative.to_owned()];
    assert!(package_projects(&config).contains(&managed_relative));
    let stale = r#"<Project Sdk="Microsoft.NET.Sdk"><PropertyGroup><Version>0.0.1</Version></PropertyGroup></Project>"#;

    let drifts: Vec<ConfigDriftItem> =
        csproj_drift(&config, managed_relative, stale).unwrap().into_iter().collect();
    assert!(drifts.iter().any(|item| item.summary.contains(managed_relative)));

    let managed_content = sync_csproj(stale, &config).unwrap();
    assert!(managed_content.contains("<Version>0.2.0</Version>"));
    let after: Vec<ConfigDriftItem> =
        csproj_drift(&config, managed_relative, &managed_content).unwrap().into_iter().collect();
    assert!(!after.iter().any(|item| item.kind == ConfigDriftKind::PackageCsproj));
}

#[test]
fn bump_version_updates_workspace_version() {
    let config = sample_config();
    let bumped = bump_workspace_version(&config.versions.workspace, VersionPart::Major).unwrap();
    assert_eq!(bumped, "1.0.0");
}
