use drot::storage::build_run::{
    BuildRunOptions, BuildStep, NativeStaging, build_run_package_options, build_run_steps, msvc_stage_command, native_staging,
    step_texts,
};
use drot::repo_config::{
    CiConfig, DharaRepoConfig, NuGetConfig, ProductConfig, TargetsConfig, VersionConfig, parse_env_content,
};
use drot::storage::nuget::{
    PackStage, pack_stage,
    PackageOptions, aot_publish_args, package_cache_dirs, check_package_assets, check_package_icon_and_targets, effective_source,
    effective_version, expected_native_runtimes, native_stage_runtimes, native_stage_step, non_empty_option,
    pack_args, package_file_name, packages_to_push, publish_packed, publishable_packages, push_args,
    push_dotnet_platform_args, restore_smoke_args, run_smoke_args, secret_from_env, stage_native_for_host,
    staged_message, unsupported_runtime_args,
};

fn config() -> DharaRepoConfig {
    DharaRepoConfig {
        versions: VersionConfig { workspace: "0.2.0".to_owned() },
        product: ProductConfig {
            authors: vec!["Naveen Dharmathunga".to_owned()],
            repository_url: "https://github.com/D-Naveenz/rheo_storage".to_owned(),
            project_url: "https://github.com/D-Naveenz/rheo_storage".to_owned(),
            license: None,
        },
        nuget: NuGetConfig { source: "https://api.nuget.org/v3/index.json".to_owned() },
        ci: CiConfig {
            smoke_project: "smoke/Smoke.csproj".to_owned(),
            package_project: "pkg/Dhara.Storage.csproj".to_owned(),
            managed_package_projects: Vec::new(),
            tests_project: "tests/Tests.csproj".to_owned(),
            native_runtimes: vec!["win-x64".to_owned(), "win-arm64".to_owned(), "linux-x64".to_owned()],
            host_runtime_smoke: "win-x64".to_owned(),
            aot_runtime_smoke: "linux-x64".to_owned(),
        },
        targets: TargetsConfig {
            rust_targets: vec![
                ("linux-x64".to_owned(), "x86_64-unknown-linux-gnu".to_owned()),
                ("win-x64".to_owned(), "x86_64-pc-windows-msvc".to_owned()),
            ],
        },
    }
}

fn options() -> PackageOptions {
    PackageOptions {
        configuration: "Release".to_owned(),
        version_override: None,
        source_override: None,
        output_dir: None,
        execute_publish: false,
        native_stage_override: None,
        prepacked_nuget_override: None,
        include_cross_native: true,
        expected_native_runtimes: None,
    }
}

fn strings(xs: &[&str]) -> Vec<String> {
    xs.iter().map(|x| x.to_string()).collect()
}

#[test]
fn version_and_values() {
    let c = config();
    assert_eq!(effective_version(&c, &None), "0.2.0");
    assert_eq!(effective_version(&c, &Some("1.0.0-rc.1".to_owned())), "1.0.0-rc.1");
    assert_eq!(non_empty_option("  x  ".to_owned()), Some("x".to_owned()));
    assert_eq!(non_empty_option(" \t ".to_owned()), None);
    assert_eq!(package_file_name("Dhara.Storage", "0.2.0"), "Dhara.Storage.0.2.0.nupkg");
    let mut o = options();
    assert_eq!(expected_native_runtimes(&c, &o), c.ci.native_runtimes);
    o.expected_native_runtimes = Some(strings(&["linux-x64"]));
    assert_eq!(expected_native_runtimes(&c, &o), strings(&["linux-x64"]));
}

#[test]
fn feed_and_key_precedence() {
    let c = config();
    let mut o = options();
    assert_eq!(effective_source(&o, None, None, &c), "https://api.nuget.org/v3/index.json");
    assert_eq!(effective_source(&o, None, Some("  ".to_owned()), &c), "https://api.nuget.org/v3/index.json");
    assert_eq!(effective_source(&o, None, Some(" proc ".to_owned()), &c), " proc ");
    assert_eq!(effective_source(&o, Some(" file ".to_owned()), Some("proc".to_owned()), &c), "file");
    o.source_override = Some(" ".to_owned());
    assert_eq!(effective_source(&o, Some("file".to_owned()), None, &c), "file");
    o.source_override = Some(" cli ".to_owned());
    assert_eq!(effective_source(&o, Some("file".to_owned()), None, &c), "cli");

    assert_eq!(secret_from_env("NUGET_API_KEY", Some(" k ".to_owned()), None), Ok("k".to_owned()));
    assert_eq!(secret_from_env("NUGET_API_KEY", Some("".to_owned()), Some(" p ".to_owned())), Ok("p".to_owned()));
    assert_eq!(
        secret_from_env("NUGET_API_KEY", None, Some(" ".to_owned())),
        Err("NUGET_API_KEY is not set in the environment or .env.local".to_owned())
    );
}

#[test]
fn dotnet_command_lines() {
    let c = config();
    assert_eq!(
        pack_args("pkg/P.csproj", "Release", "0.2.0", "/stage", "/out/nuget"),
        strings(&[
            "pack",
            "pkg/P.csproj",
            "--configuration",
            "Release",
            "--include-symbols",
            "-p:ContinuousIntegrationBuild=true",
            "-p:Platform=AnyCPU",
            "-p:PlatformTarget=AnyCPU",
            "-p:Version=0.2.0",
            "-p:StagedNativeRoot=/stage",
            "--output",
            "/out/nuget",
        ])
    );
    assert_eq!(
        restore_smoke_args(&c, "0.2.0", "/cfg", Some("win-x64"), true).unwrap(),
        strings(&[
            "restore",
            "smoke/Smoke.csproj",
            "-p:DharaStoragePackageVersion=0.2.0",
            "--configfile=/cfg",
            "--force-evaluate",
            "--runtime",
            "win-x64",
            "-p:Platform=x64",
            "-p:PlatformTarget=x64",
            "-p:PublishAot=true",
        ])
    );
    assert_eq!(
        restore_smoke_args(&c, "0.2.0", "/cfg", None, false).unwrap(),
        strings(&[
            "restore",
            "smoke/Smoke.csproj",
            "-p:DharaStoragePackageVersion=0.2.0",
            "--configfile=/cfg",
            "--force-evaluate",
        ])
    );
    assert_eq!(
        restore_smoke_args(&c, "0.2.0", "/cfg", Some("sparc"), false),
        Err("unsupported runtime for Platform inference: sparc".to_owned())
    );
    assert_eq!(
        run_smoke_args(&c, "0.2.0").unwrap(),
        strings(&[
            "run",
            "--project",
            "smoke/Smoke.csproj",
            "--configuration",
            "Release",
            "--runtime",
            "win-x64",
            "--no-restore",
            "-p:DharaStoragePackageVersion=0.2.0",
            "-p:Platform=x64",
            "-p:PlatformTarget=x64",
        ])
    );
    assert_eq!(unsupported_runtime_args(&c, "0.2.0", "/cfg")[5], "win-x86");
    assert_eq!(unsupported_runtime_args(&c, "0.2.0", "/cfg").len(), 10);
    let aot = aot_publish_args(&c, "0.2.0", "/out/aot", "linux-x64").unwrap();
    assert_eq!(aot.len(), 13);
    assert_eq!(aot[12], "/out/aot");
    assert_eq!(
        push_args("/out/p.nupkg", "key", "feed"),
        strings(&["nuget", "push", "/out/p.nupkg", "--api-key", "key", "--source", "feed", "--skip-duplicate"])
    );
    let mut args = strings(&["x"]);
    push_dotnet_platform_args(&mut args, "win-arm64").unwrap();
    assert_eq!(args, strings(&["x", "-p:Platform=ARM64", "-p:PlatformTarget=arm64"]));
    assert!(push_dotnet_platform_args(&mut args, "sparc").is_err());
    assert_eq!(args.len(), 3);
}

#[test]
fn native_staging_decisions() {
    let c = config();
    let o = options();
    assert_eq!(
        native_stage_runtimes(&c, &o, "windows", "x86_64"),
        Ok(strings(&["win-x64", "win-arm64"]))
    );
    let mut debug = options();
    debug.configuration = "debug".to_owned();
    assert_eq!(
        native_stage_runtimes(&c, &debug, "windows", "x86_64"),
        Err("only Release packaging is currently supported".to_owned())
    );
    let mut lower = options();
    lower.configuration = "rElEaSe".to_owned();
    assert!(native_stage_runtimes(&c, &lower, "linux", "x86_64").is_ok());
    assert_eq!(
        native_stage_runtimes(&c, &o, "macos", "aarch64"),
        Err("no native runtimes are buildable on the current host".to_owned())
    );

    let step = native_stage_step(&c, "linux-x64").unwrap();
    assert_eq!(step.cargo_args, strings(&["build", "-p", "dhara-sd", "--release", "--target", "x86_64-unknown-linux-gnu"]));
    assert_eq!(step.source, "target/x86_64-unknown-linux-gnu/release/dhara-sd");
    assert_eq!(step.destination, "runtimes/linux-x64/native/dhara-sd");
    assert_eq!(
        native_stage_step(&c, "win-arm64"),
        Err("missing rust target mapping for runtime 'win-arm64'".to_owned())
    );

    assert_eq!(stage_native_for_host(&c, &o, "linux", "x86_64", "/tool/artifacts"), Ok("/tool/artifacts/native-stage".to_owned()));
    assert_eq!(
        stage_native_for_host(&c, &o, "linux", "aarch64", "/tool/artifacts"),
        Err("no native runtimes are buildable on the current host".to_owned())
    );
    let mut debug = o.clone();
    debug.configuration = "Debug".to_owned();
    assert_eq!(
        stage_native_for_host(&c, &debug, "linux", "x86_64", "/tool/artifacts"),
        Err("only Release packaging is currently supported".to_owned())
    );
    debug.configuration = "rElEaSe".to_owned();
    assert!(stage_native_for_host(&c, &debug, "linux", "x86_64", "/tool/artifacts").is_ok());
    assert_eq!(staged_message("/s"), "Staged host native assets at /s");
}

#[test]
fn package_content_checks() {
    let rids = strings(&["linux-x64", "win-x64"]);
    let full = strings(&[
        "lib/net10.0/Dhara.Storage.dll",
        "runtimes/linux-x64/native/dhara-sd",
        "runtimes/win-x64/native/dhara-sd.exe",
        "README.md",
        "icon.png",
        "build/Dhara.Storage.targets",
    ]);
    assert_eq!(check_package_assets(&full, &rids), Ok(()));
    assert_eq!(check_package_icon_and_targets(&full, Some("images/icon.png".to_owned())), Ok(()));
    assert_eq!(check_package_icon_and_targets(&full, None), Ok(()));

    assert_eq!(
        check_package_assets(&full[1..].to_vec(), &rids),
        Err("managed assembly missing from package".to_owned())
    );
    let mut no_win = full.clone();
    no_win.remove(2);
    assert_eq!(
        check_package_assets(&no_win, &rids),
        Err("native asset missing from package: runtimes/win-x64/native/dhara-sd.exe".to_owned())
    );
    assert_eq!(
        check_package_assets(&full, &strings(&["sparc"])),
        Err("unsupported runtime identifier for daemon sidecar name: sparc".to_owned())
    );
    let mut no_readme = full.clone();
    no_readme.remove(3);
    assert_eq!(check_package_assets(&no_readme, &rids), Err("README.md missing from package".to_owned()));
    assert_eq!(
        check_package_icon_and_targets(&full, Some("logo.svg".to_owned())),
        Err("package icon missing from package: logo.svg".to_owned())
    );
    assert_eq!(
        check_package_icon_and_targets(&full, Some("images/..".to_owned())),
        Err("PackageIcon path must end with a file name: images/..".to_owned())
    );
    let no_targets = full[..5].to_vec();
    assert_eq!(
        check_package_icon_and_targets(&no_targets, None),
        Err("build/Dhara.Storage.targets missing from package".to_owned())
    );
}

#[test]
fn publishing_picks_sorted_packages() {
    let listing = strings(&[
        "Dhara.Storage.Extra.0.2.0.nupkg",
        "Dhara.Storage.0.2.0.symbols.nupkg",
        ".nupkg",
        "notes.txt",
        "Dhara.Storage.0.2.0.nupkg",
        "Dhara.Storage.0.2.0.snupkg",
    ]);
    assert_eq!(
        publishable_packages(&listing),
        strings(&["Dhara.Storage.0.2.0.nupkg", "Dhara.Storage.Extra.0.2.0.nupkg"])
    );
    let o = options();
    assert_eq!(
        packages_to_push(&o, "/out/nuget", &listing, false),
        Ok(strings(&["/out/nuget/Dhara.Storage.0.2.0.nupkg", "/out/nuget/Dhara.Storage.Extra.0.2.0.nupkg"]))
    );
    assert_eq!(
        packages_to_push(&o, "/out/nuget", &strings(&["a.txt"]), false),
        Err("no NuGet packages found in /out/nuget".to_owned())
    );
    let mut pre = options();
    pre.prepacked_nuget_override = Some("/x/p.nupkg".to_owned());
    assert_eq!(
        packages_to_push(&pre, "/out/nuget", &listing, false),
        Err("NuGet package does not exist: /x/p.nupkg".to_owned())
    );
    assert_eq!(packages_to_push(&pre, "/out/nuget", &listing, true), Ok(strings(&["/x/p.nupkg"])));
}

#[test]
fn publish_packed_plans_pushes() {
    let c = config();
    let o = options();
    let env = parse_env_content("NUGET_API_KEY= secret \nNUGET_SOURCE=\n").unwrap();
    let listing = strings(&["b.1.nupkg", "a.1.nupkg"]);
    let plan = publish_packed(&o, &c, &env, None, None, "/out/nuget", &listing, false).unwrap();
    assert_eq!(plan.source, "https://api.nuget.org/v3/index.json");
    assert_eq!(plan.packages, strings(&["/out/nuget/a.1.nupkg", "/out/nuget/b.1.nupkg"]));
    assert_eq!(plan.commands.len(), 2);
    assert_eq!(plan.commands[0][2], "/out/nuget/a.1.nupkg");
    assert_eq!(plan.commands[0][4], "secret");

    let no_key = parse_env_content("NUGET_SOURCE=https://feed\n").unwrap();
    assert_eq!(
        publish_packed(&o, &c, &no_key, None, None, "/out/nuget", &listing, false),
        Err("NUGET_API_KEY is not set in the environment or .env.local".to_owned())
    );
    let plan = publish_packed(&o, &c, &no_key, None, Some("k".to_owned()), "/out/nuget", &listing, false).unwrap();
    assert_eq!(plan.source, "https://feed");
    assert_eq!(plan.commands[1][6], "https://feed");
}

#[test]
fn package_caches_to_clear() {
    assert_eq!(
        package_cache_dirs(Some("/c/pkgs".to_owned()), None, None, Some("/home/me".to_owned()), "/repo", "Dhara.Storage", "0.2.0"),
        strings(&[
            "/c/pkgs/dhara.storage/0.2.0",
            "/home/me/.nuget/packages/dhara.storage/0.2.0",
            "/repo/.dotnet/.nuget/packages/dhara.storage/0.2.0",
        ])
    );
    assert_eq!(
        package_cache_dirs(None, Some("/u".to_owned()), Some("/u".to_owned()), Some("/h".to_owned()), "/repo", "P", "1"),
        strings(&["/repo/.dotnet/.nuget/packages/p/1", "/u/.nuget/packages/p/1"])
    );
}

fn build_options(skip_native: bool) -> BuildRunOptions {
    BuildRunOptions {
        skip_config: false,
        skip_defs: true,
        skip_quality: true,
        skip_docs: true,
        skip_dotnet: true,
        skip_native,
        skip_verify: false,
        cross_native: false,
        configuration: "Debug".to_owned(),
    }
}

#[test]
fn build_run_takes_the_steps_not_skipped_in_order() {
    assert_eq!(build_run_steps(&build_options(false)), vec![BuildStep::Config, BuildStep::Native, BuildStep::Verify]);
    let mut all = build_options(true);
    all.skip_defs = false;
    all.skip_quality = false;
    assert_eq!(build_run_steps(&all), vec![BuildStep::Config, BuildStep::Defs, BuildStep::Quality, BuildStep::Verify]);
    all.skip_config = true;
    all.skip_defs = true;
    all.skip_quality = true;
    all.skip_verify = true;
    assert!(build_run_steps(&all).is_empty());
    assert_eq!(step_texts(BuildStep::Native), ("native", "Staging host native assets", "Building dhara-sd for host runtimes"));
    assert_eq!(step_texts(BuildStep::Config).0, "config");
}

#[test]
fn build_run_verifies_what_it_staged() {
    let c = config();
    let staged = build_run_package_options(&build_options(false), &c, &Some("out".to_owned()), "/opt/drot", "linux", "x86_64");
    assert_eq!(staged.configuration, "Debug");
    assert_eq!(staged.output_dir, Some("out".to_owned()));
    assert!(!staged.execute_publish);
    assert_eq!(staged.native_stage_override, Some("/opt/drot/artifacts/native-stage".to_owned()));
    assert_eq!(staged.expected_native_runtimes, Some(vec!["linux-x64".to_owned()]));

    let unstaged = build_run_package_options(&build_options(true), &c, &None, "/opt/drot", "linux", "x86_64");
    assert_eq!(unstaged.native_stage_override, None);
    assert_eq!(unstaged.expected_native_runtimes, None);
}

#[test]
fn cross_native_staging_on_windows_runs_inside_the_developer_environment() {
    assert_eq!(native_staging("windows", true), NativeStaging::UnderMsvcEnvironment);
    assert_eq!(native_staging("windows", false), NativeStaging::OnHost);
    assert_eq!(native_staging("linux", true), NativeStaging::OnHost);
    assert_eq!(
        msvc_stage_command("C:\\tools\\drot.exe", "C:\\repo", "release"),
        "\"C:\\tools\\drot.exe\" -r \"C:\\repo\" --yes package stage-native"
    );
    assert_eq!(
        msvc_stage_command("drot.exe", "repo", "Debug"),
        "\"drot.exe\" -r \"repo\" --yes package stage-native --configuration Debug"
    );
}

#[test]
fn pack_takes_a_named_stage_or_stages_afresh() {
    let c = config();
    let mut o = options();
    assert_eq!(
        pack_stage(&c, &o, None, "linux", "x86_64", "/repo", "/tool/artifacts"),
        Ok(PackStage::Fresh("/tool/artifacts/native-stage".to_owned()))
    );
    assert_eq!(
        pack_stage(&c, &o, None, "linux", "aarch64", "/repo", "/tool/artifacts"),
        Err("no native runtimes are buildable on the current host".to_owned())
    );
    assert_eq!(
        pack_stage(&c, &o, Some("stage".to_owned()), "linux", "aarch64", "/repo", "/tool/artifacts"),
        Ok(PackStage::Prestaged("/repo/stage".to_owned()))
    );
    o.native_stage_override = Some("/abs/stage".to_owned());
    assert_eq!(
        pack_stage(&c, &o, Some("stage".to_owned()), "linux", "aarch64", "/repo", "/tool/artifacts"),
        Ok(PackStage::Prestaged("/abs/stage".to_owned()))
    );
}
