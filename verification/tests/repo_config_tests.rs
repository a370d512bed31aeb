use drot::repo_config::{
    CiConfig, DharaRepoConfig, NuGetConfig, ProductConfig, SemVersion, TargetsConfig, VersionConfig, VersionPart,
    bump_version_value, bump_workspace_version, csproj_needs_sync, decimal_string, format_version, masked_env,
    normalize_version, package_projects, parse_env_content, read_csproj_package_id, read_csproj_property,
    required_paths, skeleton_config, sync_csproj, validate_config, validate_config_fields, env_value, join_path,
    target_for,
};

fn sample_config() -> DharaRepoConfig {
    let targets = vec![
        ("linux-arm64".to_owned(), "aarch64-unknown-linux-gnu".to_owned()),
        ("linux-x64".to_owned(), "x86_64-unknown-linux-gnu".to_owned()),
        ("osx-arm64".to_owned(), "aarch64-apple-darwin".to_owned()),
        ("win-arm64".to_owned(), "aarch64-pc-windows-msvc".to_owned()),
        ("win-x64".to_owned(), "x86_64-pc-windows-msvc".to_owned()),
    ];

    DharaRepoConfig {
        versions: VersionConfig { workspace: "0.2.0".to_owned() },
        product: ProductConfig {
            authors: vec!["Naveen Dharmathunga".to_owned()],
            repository_url: "https://github.com/D-Naveenz/rheo_storage".to_owned(),
            project_url: "https://github.com/D-Naveenz/rheo_storage".to_owned(),
            license: None,
        },
        nuget: NuGetConfig { source: "https://api.nuget.org/v3/index.json".to_owned() },
        ci: CiConfig {
            smoke_project: "src/bindings/csharp/Dhara.Storage.ConsumerSmoke/Dhara.Storage.ConsumerSmoke.csproj"
                .to_owned(),
            package_project: "src/bindings/csharp/Dhara.Storage/Dhara.Storage.csproj".to_owned(),
            managed_package_projects: Vec::new(),
            tests_project: "src/bindings/csharp/Dhara.Storage.Tests/Dhara.Storage.Tests.csproj".to_owned(),
            native_runtimes: vec![
                "win-x64".to_owned(),
                "win-arm64".to_owned(),
                "linux-x64".to_owned(),
                "linux-arm64".to_owned(),
                "osx-arm64".to_owned(),
            ],
            host_runtime_smoke: "linux-x64".to_owned(),
            aot_runtime_smoke: "linux-x64".to_owned(),
        },
        targets: TargetsConfig { rust_targets: targets },
    }
}

#[test]
fn sync_csproj_updates_shared_metadata() {
    let config = sample_config();
    let updated = sync_csproj(
        r#"<Project Sdk="Microsoft.NET.Sdk"><PropertyGroup><Version>1.0.0</Version></PropertyGroup></Project>"#,
        &config,
    )
    .unwrap();

    assert!(updated.contains("<Version>0.2.0</Version>"));
    assert!(updated.contains("<Authors>Naveen Dharmathunga</Authors>"));
    assert!(updated.contains("<RepositoryUrl>https://github.com/D-Naveenz/rheo_storage</RepositoryUrl>"));
    assert!(updated.contains("<PackageProjectUrl>https://github.com/D-Naveenz/rheo_storage</PackageProjectUrl>"));
    assert!(!updated.contains("PackageId"));
    assert!(!updated.contains("PackageTags"));
}

#[test]
fn sync_csproj_syncs_license_when_configured() {
    let mut config = sample_config();
    config.product.license = Some("MIT".to_owned());
    let updated = sync_csproj(
        r#"<Project Sdk="Microsoft.NET.Sdk"><PropertyGroup><Version>1.0.0</Version></PropertyGroup></Project>"#,
        &config,
    )
    .unwrap();

    assert!(updated.contains("<PackageLicenseExpression>MIT</PackageLicenseExpression>"));
}

#[test]
fn csproj_needs_sync_ignores_msbuild_xml_formatting() {
    let config = sample_config();
    let formatted = r#"<Project Sdk="Microsoft.NET.Sdk">
  <PropertyGroup>
    <StagedNativeRoot Condition="&apos;$(StagedNativeRoot)&apos; == &apos;&apos;" />
    <Version>0.2.0</Version>
    <RepositoryUrl>https://github.com/D-Naveenz/rheo_storage</RepositoryUrl>
    <PackageProjectUrl>https://github.com/D-Naveenz/rheo_storage</PackageProjectUrl>
    <Authors>Naveen Dharmathunga</Authors>
  </PropertyGroup>
</Project>"#;

    assert!(!csproj_needs_sync(formatted, &config).unwrap());
    assert_eq!(sync_csproj(formatted, &config).unwrap(), formatted);
}

#[test]
fn package_projects_deduplicates_and_leads_with_primary() {
    let mut config = sample_config();
    config.ci.managed_package_projects = vec![
        "src/bindings/csharp/Dhara.Storage.Extensions.Hosting/Dhara.Storage.Extensions.Hosting.csproj".to_owned(),
        config.ci.package_project.clone(),
    ];

    let projects = package_projects(&config);
    assert_eq!(projects.len(), 2);
    assert_eq!(projects[0], config.ci.package_project.as_str());
}

#[test]
fn parse_env_content_ignores_comments_and_blank_lines() {
    let parsed = parse_env_content(
        r#"
            # comment
            NUGET_API_KEY=test-key

            NUGET_SOURCE=https://api.nuget.org/v3/index.json
            "#,
    )
    .unwrap();
    let get = |k: &str| parsed.iter().find(|(key, _)| key == k).map(|(_, v)| v.clone());
    assert_eq!(get("NUGET_API_KEY"), Some("test-key".to_owned()));
    assert_eq!(get("NUGET_SOURCE"), Some("https://api.nuget.org/v3/index.json".to_owned()));
}

#[test]
fn masked_env_redacts_secret_like_keys() {
    let values = vec![
        ("NUGET_API_KEY".to_owned(), "secret".to_owned()),
        ("NUGET_SOURCE".to_owned(), "https://api.nuget.org/v3/index.json".to_owned()),
    ];
    let masked = masked_env(values);
    assert_eq!(masked[0], ("NUGET_API_KEY".to_owned(), "<redacted>".to_owned()));
    assert_eq!(masked[1], ("NUGET_SOURCE".to_owned(), "https://api.nuget.org/v3/index.json".to_owned()));
}

#[test]
fn env_entries_come_in_key_order_and_later_lines_win() {
    let parsed = parse_env_content("B=2\r\nA = 1\nB=3\n#C=4\nD=x=y\n").unwrap();
    assert_eq!(
        parsed,
        vec![
            ("A".to_owned(), "1".to_owned()),
            ("B".to_owned(), "3".to_owned()),
            ("D".to_owned(), "x=y".to_owned())
        ]
    );
    let masked = masked_env(vec![("db_password".to_owned(), "p".to_owned()), ("my_token".to_owned(), "t".to_owned())]);
    assert_eq!(masked[0].1, "<redacted>");
    assert_eq!(masked[1].1, "<redacted>");
}

#[test]
fn env_line_without_equals_is_an_error() {
    let err = parse_env_content("A=1\n\njust words\n").unwrap_err();
    assert_eq!(err, "invalid env entry on line 3: expected KEY=VALUE");
}

#[test]
fn csproj_edits_cover_missing_groups_and_license_removal() {
    let config = sample_config();
    let updated = sync_csproj(r#"<Project Sdk="Microsoft.NET.Sdk"></Project>"#, &config).unwrap();
    assert!(updated.starts_with("<Project Sdk=\"Microsoft.NET.Sdk\">\n  <PropertyGroup>\n    <PackageProjectUrl>"));
    assert!(updated.contains("<Version>0.2.0</Version>"));
    let with_license = r#"<Project><PropertyGroup><Version>0.2.0</Version><Authors>Naveen Dharmathunga</Authors><RepositoryUrl>https://github.com/D-Naveenz/rheo_storage</RepositoryUrl><PackageProjectUrl>https://github.com/D-Naveenz/rheo_storage</PackageProjectUrl><PackageLicenseExpression>MIT</PackageLicenseExpression></PropertyGroup></Project>"#;
    assert!(csproj_needs_sync(with_license, &config).unwrap());
    let updated = sync_csproj(with_license, &config).unwrap();
    assert!(!updated.contains("PackageLicenseExpression"));
    assert!(!csproj_needs_sync(&updated, &config).unwrap());
    assert_eq!(csproj_needs_sync("not xml <", &config).unwrap_err(), "failed to parse package csproj");
    assert_eq!(
        sync_csproj("<Version>1.0.0<Project/>", &config).unwrap_err(),
        "failed to parse package csproj"
    );
}

#[test]
fn versions_bump_and_normalize_through_semver() {
    assert_eq!(bump_workspace_version("0.2.9", VersionPart::Patch).unwrap(), "0.2.10");
    assert_eq!(bump_workspace_version("0.2.9", VersionPart::Minor).unwrap(), "0.3.0");
    assert_eq!(bump_workspace_version("1.2.3-rc.1+b5", VersionPart::Major).unwrap(), "2.0.0-rc.1+b5");
    assert_eq!(bump_workspace_version("one", VersionPart::Major).unwrap_err(), "invalid configured semver: one");
    assert_eq!(normalize_version("1.02.3").unwrap_err(), "invalid semver: 1.02.3");
    assert_eq!(normalize_version("1.2.3").unwrap(), "1.2.3");
    let v = SemVersion { major: 9, minor: 9, patch: 9, pre: String::new(), build: String::new() };
    assert_eq!(format_version(&bump_version_value(v, VersionPart::Minor)), "9.10.0");
    assert_eq!(decimal_string(0), "0");
    assert_eq!(decimal_string(18446744073709551615), "18446744073709551615");
}

#[test]
fn validation_reports_the_first_broken_rule() {
    let config = sample_config();
    assert_eq!(validate_config_fields(&config), Ok(()));
    let mut c = sample_config();
    c.product.authors.clear();
    assert_eq!(validate_config_fields(&c).unwrap_err(), "product.authors must not be empty");
    let mut c = sample_config();
    c.targets.rust_targets.remove(0);
    assert_eq!(
        validate_config_fields(&c).unwrap_err(),
        "targets.rust_targets is missing an entry for runtime 'linux-arm64'"
    );
    let mut c = sample_config();
    c.ci.aot_runtime_smoke = "win-x86".to_owned();
    assert_eq!(
        validate_config_fields(&c).unwrap_err(),
        "ci.aot_runtime_smoke 'win-x86' must be present in ci.native_runtimes"
    );
    let mut c = sample_config();
    c.versions.workspace = "x".to_owned();
    assert_eq!(validate_config_fields(&c).unwrap_err(), "invalid workspace version: x");
    let paths = required_paths(&config, "core/dhara_storage/resources/filedefs.dat");
    assert_eq!(paths[0], "dhara.config.toml");
    assert_eq!(paths[1], "Cargo.toml");
    assert_eq!(paths[2], config.ci.package_project);
    assert_eq!(paths.len(), 7);
}

const RUNTIME_DEFS: &str = "core/dhara_storage/resources/filedefs.dat";

/// The paths a complete repository layout holds (what the original's test helper writes).
fn required_files() -> Vec<String> {
    vec![
        "dhara.config.toml".to_owned(),
        "Cargo.toml".to_owned(),
        ".env.example".to_owned(),
        "src/bindings/csharp/Dhara.Storage/Dhara.Storage.csproj".to_owned(),
        "src/bindings/csharp/Dhara.Storage.Tests/Dhara.Storage.Tests.csproj".to_owned(),
        "src/bindings/csharp/Dhara.Storage.ConsumerSmoke/Dhara.Storage.ConsumerSmoke.csproj".to_owned(),
        RUNTIME_DEFS.to_owned(),
    ]
}

#[test]
fn read_csproj_package_id_reads_property() {
    let content = r#"<Project Sdk="Microsoft.NET.Sdk"><PropertyGroup><PackageId>Dhara.Storage</PackageId></PropertyGroup></Project>"#;
    let package_id = read_csproj_package_id(content, "/tmp/repo/pkg/Package.csproj").unwrap();
    assert_eq!(package_id, "Dhara.Storage");
}

#[test]
fn validate_config_accepts_complete_repo_layout() {
    let config = sample_config();
    validate_config(&config, RUNTIME_DEFS, "/tmp/repo", &required_files()).unwrap();
}

#[test]
fn validate_config_rejects_empty_authors() {
    let mut config = sample_config();
    config.product.authors.clear();
    let error = validate_config(&config, RUNTIME_DEFS, "/tmp/repo", &required_files()).unwrap_err();
    assert!(error.contains("product.authors"));
}

#[test]
fn validate_config_reports_first_missing_path() {
    let config = sample_config();
    let mut files = required_files();
    files.retain(|p| p != ".env.example" && p != "Cargo.toml");
    assert_eq!(
        validate_config(&config, RUNTIME_DEFS, "/tmp/repo", &files),
        Err("required path does not exist: /tmp/repo/Cargo.toml".to_owned())
    );
    assert_eq!(
        validate_config(&config, RUNTIME_DEFS, "/tmp/repo/", &files),
        Err("required path does not exist: /tmp/repo/Cargo.toml".to_owned())
    );
}

#[test]
fn csproj_property_reads_and_errors() {
    let content = r#"<Project><PropertyGroup><PackageIcon> images/icon.png </PackageIcon><Empty>  </Empty></PropertyGroup></Project>"#;
    assert_eq!(read_csproj_property(content, "p.csproj", "PackageIcon"), Ok(Some("images/icon.png".to_owned())));
    assert_eq!(read_csproj_property(content, "p.csproj", "Empty"), Ok(None));
    assert_eq!(read_csproj_property(content, "p.csproj", "Missing"), Ok(None));
    assert_eq!(read_csproj_property("<Project>", "p.csproj", "X"), Err("failed to parse p.csproj".to_owned()));
    assert_eq!(
        read_csproj_package_id("<Project />", "p.csproj"),
        Err("PackageId property missing from p.csproj".to_owned())
    );
}

#[test]
fn lookups_and_joins() {
    let entries = parse_env_content("B=2\nA= 1 \n").unwrap();
    assert_eq!(env_value(&entries, "A"), Some("1".to_owned()));
    assert_eq!(env_value(&entries, "C"), None);
    let config = sample_config();
    assert_eq!(target_for(&config.targets.rust_targets, "osx-arm64"), Some("aarch64-apple-darwin".to_owned()));
    assert_eq!(target_for(&config.targets.rust_targets, "win-x86"), None);
    assert_eq!(join_path("", "a"), "a");
    assert_eq!(join_path("/r", "/abs"), "/abs");
    assert_eq!(join_path("/r/", "a"), "/r/a");
    assert_eq!(join_path("/r", "a"), "/r/a");
}

#[test]
fn a_new_repository_starts_from_the_skeleton() {
    let config = skeleton_config();
    assert_eq!(config.nuget.source, "https://api.nuget.org/v3/index.json");
    assert_eq!(config.versions.workspace, "0.1.0");
    assert!(config.product.authors.is_empty());
    assert!(validate_config_fields(&config).is_err());
}
