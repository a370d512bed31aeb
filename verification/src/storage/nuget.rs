//! The NuGet packaging workflow's decisions: which version, feed and key a run uses, the
//! command lines it runs, which native libraries it stages and where, which packages it
//! publishes and what a package must contain. Running the commands and touching the file
//! system is the host's part.
use vstd::prelude::*;

use crate::command::string_views;
use crate::interactive::{file_name_before, path_file_name};
use crate::repo_config::{DharaRepoConfig, contains_string, join_path, spec_target_for, target_for};
use crate::storage::native_rids::{
    native_lib_filename, platform, platform_target, spec_native_lib_filename, spec_platform, spec_platform_target,
    spec_staging, staging_runtimes_on_host,
};
use crate::text::{
    concat, concat3, ends_with, has_suffix, lower_seq, seq_lt, str_eq, str_lt, to_ascii_lowercase, trim, trim_seq,
};

verus! {

/// The options of a packaging run.
#[derive(Debug, Clone)]
pub struct PackageOptions {
    pub configuration: String,
    pub version_override: Option<String>,
    pub source_override: Option<String>,
    pub output_dir: Option<String>,
    pub execute_publish: bool,
    pub native_stage_override: Option<String>,
    pub prepacked_nuget_override: Option<String>,
    /// When staging on the current host, also build cross-native targets (for example
    /// `win-arm64` on Windows x64).
    pub include_cross_native: bool,
    /// Native RIDs required in the stage directory and `.nupkg`; when unset, all
    /// `ci.native_runtimes` of the configuration.
    pub expected_native_runtimes: Option<Vec<String>>,
}

/// The text an optional string holds.
pub open spec fn opt_text(o: Option<String>) -> Option<Seq<char>> {
    match o {
        Some(s) => Some(s@),
        None => None,
    }
}

/// The version a run packs: the override, else the workspace version.
pub open spec fn spec_effective_version(config: DharaRepoConfig, override_value: Option<String>) -> Seq<char> {
    match override_value {
        Some(v) => v@,
        None => config.versions.workspace@,
    }
}

/// The version a run packs (see `spec_effective_version`).
pub fn effective_version(config: &DharaRepoConfig, override_value: &Option<String>) -> (r: String)
    ensures
        r@ == spec_effective_version(*config, *override_value),
{
    match override_value {
        Some(v) => v.clone(),
        None => config.versions.workspace.clone(),
    }
}

/// A value without surrounding white space, or nothing when that leaves it empty.
pub open spec fn spec_non_empty(value: Seq<char>) -> Option<Seq<char>> {
    if trim_seq(value).len() == 0 {
        None
    } else {
        Some(trim_seq(value))
    }
}

/// An optional value passed through `spec_non_empty`.
pub open spec fn spec_non_empty_opt(value: Option<Seq<char>>) -> Option<Seq<char>> {
    match value {
        Some(v) => spec_non_empty(v),
        None => None,
    }
}

/// `value` trimmed, or `None` when that leaves it empty (see `spec_non_empty`).
pub fn non_empty_option(value: String) -> (r: Option<String>)
    ensures
        opt_text(r) == spec_non_empty(value@),
{
    let trimmed = trim(value.as_str());
    if trimmed.as_str().unicode_len() == 0 {
        None
    } else {
        Some(trimmed)
    }
}

/// A copy of a list of strings.
fn copy_strings(xs: &Vec<String>) -> (r: Vec<String>)
    ensures
        string_views(r@) == string_views(xs@),
{
    let mut r: Vec<String> = Vec::new();
    let mut i: usize = 0;
    while i < xs.len()
        invariant
            i <= xs@.len(),
            string_views(r@) == string_views(xs@).take(i as int),
        decreases xs.len() - i,
    {
        let ghost before = r@;
        let x = xs[i].clone();
        r.push(x);
        proof {
            crate::command::lemma_string_views_push(before, x);
            assert(string_views(xs@).take(i + 1) =~= string_views(xs@).take(i as int).push(xs@[i as int]@));
        }
        i += 1;
    }
    assert(string_views(xs@).take(xs@.len() as int) =~= string_views(xs@));
    r
}

/// The native RIDs a package must carry: the options' list, else the configuration's.
pub open spec fn spec_expected_native_runtimes(config: DharaRepoConfig, options: PackageOptions) -> Seq<Seq<char>> {
    match options.expected_native_runtimes {
        Some(v) => string_views(v@),
        None => string_views(config.ci.native_runtimes@),
    }
}

/// The native RIDs a package must carry (see `spec_expected_native_runtimes`).
pub fn expected_native_runtimes(config: &DharaRepoConfig, options: &PackageOptions) -> (r: Vec<String>)
    ensures
        string_views(r@) == spec_expected_native_runtimes(*config, *options),
{
    match &options.expected_native_runtimes {
        Some(v) => copy_strings(v),
        None => copy_strings(&config.ci.native_runtimes),
    }
}

/// The feed a run publishes to: the override, else `NUGET_SOURCE` of the environment file
/// (`env_file_value`), both trimmed and only when not blank; else `NUGET_SOURCE` of the process
/// environment (`process_value`) when not blank, as it is; else the configured feed.
pub open spec fn spec_effective_source(
    options: PackageOptions,
    env_file_value: Option<Seq<char>>,
    process_value: Option<Seq<char>>,
    config: DharaRepoConfig,
) -> Seq<char> {
    match spec_non_empty_opt(opt_text(options.source_override)) {
        Some(s) => s,
        None => match spec_non_empty_opt(env_file_value) {
            Some(s) => s,
            None => match process_value {
                Some(p) => if trim_seq(p).len() > 0 {
                    p
                } else {
                    config.nuget.source@
                },
                None => config.nuget.source@,
            },
        },
    }
}

/// The feed a run publishes to (see `spec_effective_source`).
pub fn effective_source(
    options: &PackageOptions,
    env_file_value: Option<String>,
    process_value: Option<String>,
    config: &DharaRepoConfig,
) -> (r: String)
    ensures
        r@ == spec_effective_source(*options, opt_text(env_file_value), opt_text(process_value), *config),
{
    if let Some(o) = &options.source_override {
        if let Some(s) = non_empty_option(o.clone()) {
            return s;
        }
    }
    if let Some(v) = env_file_value {
        if let Some(s) = non_empty_option(v) {
            return s;
        }
    }
    if let Some(p) = process_value {
        if trim(p.as_str()).as_str().unicode_len() > 0 {
            return p;
        }
    }
    config.nuget.source.clone()
}

/// A secret `key` (such as the NuGet API key): its value in the environment file, else in the
/// process environment, trimmed and not blank; an error naming the key when neither has one.
pub open spec fn spec_secret_from_env(
    key: Seq<char>,
    env_file_value: Option<Seq<char>>,
    process_value: Option<Seq<char>>,
) -> Result<Seq<char>, Seq<char>> {
    match spec_non_empty_opt(env_file_value) {
        Some(s) => Ok(s),
        None => match spec_non_empty_opt(process_value) {
            Some(s) => Ok(s),
            None => Err(key + " is not set in the environment or .env.local"@),
        },
    }
}

/// A secret value (see `spec_secret_from_env`).
pub fn secret_from_env(key: &str, env_file_value: Option<String>, process_value: Option<String>) -> (r: Result<
    String,
    String,
>)
    ensures
        match r {
            Ok(v) => spec_secret_from_env(key@, opt_text(env_file_value), opt_text(process_value)) == Ok::<
                Seq<char>,
                Seq<char>,
            >(v@),
            Err(e) => spec_secret_from_env(key@, opt_text(env_file_value), opt_text(process_value)) == Err::<
                Seq<char>,
                Seq<char>,
            >(e@),
        },
{
    if let Some(v) = env_file_value {
        if let Some(s) = non_empty_option(v) {
            return Ok(s);
        }
    }
    if let Some(p) = process_value {
        if let Some(s) = non_empty_option(p) {
            return Ok(s);
        }
    }
    Err(concat(key, " is not set in the environment or .env.local"))
}

/// The file name of package `package_id` at `version`.
pub fn package_file_name(package_id: &str, version: &str) -> (r: String)
    ensures
        r@ == package_id@ + "."@ + version@ + ".nupkg"@,
{
    let mut r = concat3(package_id, ".", version);
    r.append(".nupkg");
    r
}

/// `dotnet pack` of `project`: the configuration, with symbols, as a CI build for any CPU, at
/// `version`, with the staged native libraries under `native_stage_root`, into `nuget_output`.
pub fn pack_args(
    project: &str,
    configuration: &str,
    version: &str,
    native_stage_root: &str,
    nuget_output: &str,
) -> (r: Vec<String>)
    ensures
        string_views(r@) == seq![
            "pack"@,
            project@,
            "--configuration"@,
            configuration@,
            "--include-symbols"@,
            "-p:ContinuousIntegrationBuild=true"@,
            "-p:Platform=AnyCPU"@,
            "-p:PlatformTarget=AnyCPU"@,
            "-p:Version="@ + version@,
            "-p:StagedNativeRoot="@ + native_stage_root@,
            "--output"@,
            nuget_output@,
        ],
{
    let r = vec![
        "pack".to_owned(),
        project.to_owned(),
        "--configuration".to_owned(),
        configuration.to_owned(),
        "--include-symbols".to_owned(),
        "-p:ContinuousIntegrationBuild=true".to_owned(),
        "-p:Platform=AnyCPU".to_owned(),
        "-p:PlatformTarget=AnyCPU".to_owned(),
        concat("-p:Version=", version),
        concat("-p:StagedNativeRoot=", native_stage_root),
        "--output".to_owned(),
        nuget_output.to_owned(),
    ];
    assert(string_views(r@) =~= seq![
        "pack"@,
        project@,
        "--configuration"@,
        configuration@,
        "--include-symbols"@,
        "-p:ContinuousIntegrationBuild=true"@,
        "-p:Platform=AnyCPU"@,
        "-p:PlatformTarget=AnyCPU"@,
        "-p:Version="@ + version@,
        "-p:StagedNativeRoot="@ + native_stage_root@,
        "--output"@,
        nuget_output@,
    ]);
    r
}

/// `prefix` followed by the value, or nothing without a value.
pub open spec fn opt_arg(prefix: Seq<char>, value: Option<Seq<char>>) -> Seq<Seq<char>> {
    match value {
        Some(v) => seq![prefix + v],
        None => Seq::empty(),
    }
}

/// The MSBuild `Platform` and `PlatformTarget` arguments a build for `runtime` needs, or the
/// error of the first that cannot be inferred.
pub open spec fn spec_platform_args(runtime: Seq<char>) -> Result<Seq<Seq<char>>, Seq<char>> {
    match spec_platform(runtime) {
        Err(()) => Err("unsupported runtime for Platform inference: "@ + runtime),
        Ok(p) => match spec_platform_target(runtime) {
            Err(()) => Err("unsupported runtime for PlatformTarget inference: "@ + runtime),
            Ok(t) => Ok(opt_arg("-p:Platform="@, p) + opt_arg("-p:PlatformTarget="@, t)),
        },
    }
}

/// Appends the platform arguments of `runtime` to `args` (see `spec_platform_args`); on an
/// error `args` is left as it was.
pub fn push_dotnet_platform_args(args: &mut Vec<String>, runtime: &str) -> (r: Result<(), String>)
    ensures
        match spec_platform_args(runtime@) {
            Ok(extra) => r is Ok && string_views(final(args)@) == string_views(old(args)@) + extra,
            Err(e) => r matches Err(m) && m@ == e && final(args)@ == old(args)@,
        },
{
    let p = platform(runtime)?;
    let t = platform_target(runtime)?;
    let ghost start = string_views(args@);
    let ghost pv: Option<Seq<char>> = match p {
        Some(v) => Some(v@),
        None => None,
    };
    let ghost tv: Option<Seq<char>> = match t {
        Some(v) => Some(v@),
        None => None,
    };
    if let Some(v) = p {
        let ghost before = args@;
        let a = concat("-p:Platform=", v);
        args.push(a);
        proof {
            crate::command::lemma_string_views_push(before, a);
        }
    }
    assert(string_views(args@) =~= start + opt_arg("-p:Platform="@, pv));
    let ghost mid = string_views(args@);
    if let Some(v) = t {
        let ghost before = args@;
        let a = concat("-p:PlatformTarget=", v);
        args.push(a);
        proof {
            crate::command::lemma_string_views_push(before, a);
        }
    }
    assert(string_views(args@) =~= mid + opt_arg("-p:PlatformTarget="@, tv));
    assert(string_views(args@) =~= start + (opt_arg("-p:Platform="@, pv) + opt_arg("-p:PlatformTarget="@, tv)));
    Ok(())
}

/// `args` followed by the platform arguments of `runtime`, or the platform error.
pub open spec fn with_platform(args: Seq<Seq<char>>, runtime: Seq<char>) -> Result<Seq<Seq<char>>, Seq<char>> {
    match spec_platform_args(runtime) {
        Ok(extra) => Ok(args + extra),
        Err(e) => Err(e),
    }
}

/// The arguments a run gives as plain values.
pub open spec fn args_result(r: Result<Vec<String>, String>) -> Result<Seq<Seq<char>>, Seq<char>> {
    match r {
        Ok(v) => Ok(string_views(v@)),
        Err(e) => Err(e@),
    }
}

/// `dotnet restore` of the smoke consumer at `version` against `nuget_config`, forced to
/// re-evaluate; for `runtime` (with its platform arguments) when given, and for AOT publishing
/// when asked.
pub open spec fn spec_restore_smoke_args(
    config: DharaRepoConfig,
    version: Seq<char>,
    nuget_config: Seq<char>,
    runtime: Option<Seq<char>>,
    publish_aot: bool,
) -> Result<Seq<Seq<char>>, Seq<char>> {
    let base = seq![
        "restore"@,
        config.ci.smoke_project@,
        "-p:DharaStoragePackageVersion="@ + version,
        "--configfile="@ + nuget_config,
        "--force-evaluate"@,
    ];
    let with_runtime = match runtime {
        Some(rt) => with_platform(base + seq!["--runtime"@, rt], rt),
        None => Ok(base),
    };
    match with_runtime {
        Ok(a) => Ok(
            if publish_aot {
                a.push("-p:PublishAot=true"@)
            } else {
                a
            },
        ),
        Err(e) => Err(e),
    }
}

/// The smoke consumer's restore arguments (see `spec_restore_smoke_args`).
pub fn restore_smoke_args(
    config: &DharaRepoConfig,
    version: &str,
    nuget_config: &str,
    runtime: Option<&str>,
    publish_aot: bool,
) -> (r: Result<Vec<String>, String>)
    ensures
        args_result(r) == spec_restore_smoke_args(
            *config,
            version@,
            nuget_config@,
            match runtime {
                Some(rt) => Some(rt@),
                None => None,
            },
            publish_aot,
        ),
{
    let mut args = vec![
        "restore".to_owned(),
        config.ci.smoke_project.clone(),
        concat("-p:DharaStoragePackageVersion=", version),
        concat("--configfile=", nuget_config),
        "--force-evaluate".to_owned(),
    ];
    let ghost base = string_views(args@);
    assert(base =~= seq![
        "restore"@,
        config.ci.smoke_project@,
        "-p:DharaStoragePackageVersion="@ + version@,
        "--configfile="@ + nuget_config@,
        "--force-evaluate"@,
    ]);
    if let Some(rt) = runtime {
        args.push("--runtime".to_owned());
        args.push(rt.to_owned());
        assert(string_views(args@) =~= base + seq!["--runtime"@, rt@]);
        match push_dotnet_platform_args(&mut args, rt) {
            Err(e) => return Err(e),
            Ok(()) => {},
        }
    }
    if publish_aot {
        let ghost before = args@;
        let a = "-p:PublishAot=true".to_owned();
        args.push(a);
        proof {
            crate::command::lemma_string_views_push(before, a);
        }
    }
    Ok(args)
}

/// `dotnet run` of the smoke consumer in Release for the host smoke runtime, without restoring,
/// at `version`, with the runtime's platform arguments.
pub open spec fn spec_run_smoke_args(config: DharaRepoConfig, version: Seq<char>) -> Result<Seq<Seq<char>>, Seq<char>> {
    with_platform(
        seq![
            "run"@,
            "--project"@,
            config.ci.smoke_project@,
            "--configuration"@,
            "Release"@,
            "--runtime"@,
            config.ci.host_runtime_smoke@,
            "--no-restore"@,
            "-p:DharaStoragePackageVersion="@ + version,
        ],
        config.ci.host_runtime_smoke@,
    )
}

/// The smoke consumer's run arguments (see `spec_run_smoke_args`).
pub fn run_smoke_args(config: &DharaRepoConfig, version: &str) -> (r: Result<Vec<String>, String>)
    ensures
        args_result(r) == spec_run_smoke_args(*config, version@),
{
    let mut args = vec![
        "run".to_owned(),
        "--project".to_owned(),
        config.ci.smoke_project.clone(),
        "--configuration".to_owned(),
        "Release".to_owned(),
        "--runtime".to_owned(),
        config.ci.host_runtime_smoke.clone(),
        "--no-restore".to_owned(),
        concat("-p:DharaStoragePackageVersion=", version),
    ];
    assert(string_views(args@) =~= seq![
        "run"@,
        "--project"@,
        config.ci.smoke_project@,
        "--configuration"@,
        "Release"@,
        "--runtime"@,
        config.ci.host_runtime_smoke@,
        "--no-restore"@,
        "-p:DharaStoragePackageVersion="@ + version@,
    ]);
    match push_dotnet_platform_args(&mut args, config.ci.host_runtime_smoke.as_str()) {
        Err(e) => Err(e),
        Ok(()) => Ok(args),
    }
}

/// The text a build for a 32-bit runtime must fail with.
pub const UNSUPPORTED_RUNTIME_MESSAGE: &'static str = "does not support 32-bit runtime identifier";

/// `dotnet build` of the smoke consumer for the unsupported `win-x86` runtime at `version`
/// against `nuget_config`: it must fail with `UNSUPPORTED_RUNTIME_MESSAGE`.
pub fn unsupported_runtime_args(config: &DharaRepoConfig, version: &str, nuget_config: &str) -> (r: Vec<String>)
    ensures
        string_views(r@) == seq![
            "build"@,
            config.ci.smoke_project@,
            "--configuration"@,
            "Release"@,
            "--runtime"@,
            "win-x86"@,
            "-p:Platform=x86"@,
            "-p:PlatformTarget=x86"@,
            "--configfile="@ + nuget_config@,
            "-p:DharaStoragePackageVersion="@ + version@,
        ],
{
    let r = vec![
        "build".to_owned(),
        config.ci.smoke_project.clone(),
        "--configuration".to_owned(),
        "Release".to_owned(),
        "--runtime".to_owned(),
        "win-x86".to_owned(),
        "-p:Platform=x86".to_owned(),
        "-p:PlatformTarget=x86".to_owned(),
        concat("--configfile=", nuget_config),
        concat("-p:DharaStoragePackageVersion=", version),
    ];
    assert(string_views(r@) =~= seq![
        "build"@,
        config.ci.smoke_project@,
        "--configuration"@,
        "Release"@,
        "--runtime"@,
        "win-x86"@,
        "-p:Platform=x86"@,
        "-p:PlatformTarget=x86"@,
        "--configfile="@ + nuget_config@,
        "-p:DharaStoragePackageVersion="@ + version@,
    ]);
    r
}

/// `dotnet publish` of the smoke consumer as a self-contained AOT build for `runtime`, without
/// restoring, at `version`, into `output_dir`, with the runtime's platform arguments.
pub open spec fn spec_aot_publish_args(
    config: DharaRepoConfig,
    version: Seq<char>,
    output_dir: Seq<char>,
    runtime: Seq<char>,
) -> Result<Seq<Seq<char>>, Seq<char>> {
    with_platform(
        seq![
            "publish"@,
            config.ci.smoke_project@,
            "--configuration"@,
            "Release"@,
            "--runtime"@,
            runtime,
            "--self-contained"@,
            "true"@,
            "--no-restore"@,
            "-p:PublishAot=true"@,
            "-p:DharaStoragePackageVersion="@ + version,
            "--output"@,
            output_dir,
        ],
        runtime,
    )
}

/// The AOT smoke consumer's publish arguments (see `spec_aot_publish_args`).
pub fn aot_publish_args(config: &DharaRepoConfig, version: &str, output_dir: &str, runtime: &str) -> (r: Result<
    Vec<String>,
    String,
>)
    ensures
        args_result(r) == spec_aot_publish_args(*config, version@, output_dir@, runtime@),
{
    let mut args = vec![
        "publish".to_owned(),
        config.ci.smoke_project.clone(),
        "--configuration".to_owned(),
        "Release".to_owned(),
        "--runtime".to_owned(),
        runtime.to_owned(),
        "--self-contained".to_owned(),
        "true".to_owned(),
        "--no-restore".to_owned(),
        "-p:PublishAot=true".to_owned(),
        concat("-p:DharaStoragePackageVersion=", version),
        "--output".to_owned(),
        output_dir.to_owned(),
    ];
    assert(string_views(args@) =~= seq![
        "publish"@,
        config.ci.smoke_project@,
        "--configuration"@,
        "Release"@,
        "--runtime"@,
        runtime@,
        "--self-contained"@,
        "true"@,
        "--no-restore"@,
        "-p:PublishAot=true"@,
        "-p:DharaStoragePackageVersion="@ + version@,
        "--output"@,
        output_dir@,
    ]);
    match push_dotnet_platform_args(&mut args, runtime) {
        Err(e) => Err(e),
        Ok(()) => Ok(args),
    }
}

/// `dotnet nuget push` of `package_path` with `api_key` to `source`, skipping duplicates.
pub open spec fn push_argv(package_path: Seq<char>, api_key: Seq<char>, source: Seq<char>) -> Seq<Seq<char>> {
    seq!["nuget"@, "push"@, package_path, "--api-key"@, api_key, "--source"@, source, "--skip-duplicate"@]
}

/// The arguments of a package push (see `push_argv`).
pub fn push_args(package_path: &str, api_key: &str, source: &str) -> (r: Vec<String>)
    ensures
        string_views(r@) == push_argv(package_path@, api_key@, source@),
{
    let r = vec![
        "nuget".to_owned(),
        "push".to_owned(),
        package_path.to_owned(),
        "--api-key".to_owned(),
        api_key.to_owned(),
        "--source".to_owned(),
        source.to_owned(),
        "--skip-duplicate".to_owned(),
    ];
    assert(string_views(r@) =~= seq![
        "nuget"@,
        "push"@,
        package_path@,
        "--api-key"@,
        api_key@,
        "--source"@,
        source@,
        "--skip-duplicate"@,
    ]);
    r
}

/// The RIDs a host stages in a packaging run: only Release packaging (in any letter case) is
/// supported, and the host must be able to build at least one configured runtime.
pub open spec fn spec_native_stage_runtimes(
    config: DharaRepoConfig,
    options: PackageOptions,
    host_os: Seq<char>,
    host_arch: Seq<char>,
) -> Result<Seq<Seq<char>>, Seq<char>> {
    if lower_seq(options.configuration@) != "release"@ {
        Err("only Release packaging is currently supported"@)
    } else {
        let rs = spec_staging(
            string_views(config.ci.native_runtimes@),
            options.include_cross_native,
            host_os,
            host_arch,
        );
        if rs.len() == 0 {
            Err("no native runtimes are buildable on the current host"@)
        } else {
            Ok(rs)
        }
    }
}

/// The RIDs a host stages (see `spec_native_stage_runtimes`).
pub fn native_stage_runtimes(
    config: &DharaRepoConfig,
    options: &PackageOptions,
    host_os: &str,
    host_arch: &str,
) -> (r: Result<Vec<String>, String>)
    ensures
        args_result(r) == spec_native_stage_runtimes(*config, *options, host_os@, host_arch@),
{
    let lowered = to_ascii_lowercase(options.configuration.as_str());
    if !str_eq(lowered.as_str(), "release") {
        return Err("only Release packaging is currently supported".to_owned());
    }
    let runtimes = staging_runtimes_on_host(
        config.ci.native_runtimes.as_slice(),
        options.include_cross_native,
        host_os,
        host_arch,
    );
    if runtimes.len() == 0 {
        return Err("no native runtimes are buildable on the current host".to_owned());
    }
    Ok(runtimes)
}

/// One native library to stage: the cargo build that makes it, where the build leaves it
/// (under the repository) and where it goes (under the stage root).
#[derive(Debug, Clone, PartialEq, Eq)]
pub struct StageStep {
    pub runtime: String,
    pub cargo_args: Vec<String>,
    pub source: String,
    pub destination: String,
}

/// A stage step as plain values.
pub open spec fn stage_step_view(s: StageStep) -> (Seq<char>, Seq<Seq<char>>, Seq<char>, Seq<char>) {
    (s.runtime@, string_views(s.cargo_args@), s.source@, s.destination@)
}

/// The stage step of `rid`: a release build of the sidecar for the runtime's Rust target, from
/// `target/<target>/release/<lib>` to `runtimes/<rid>/native/<lib>`; an error when the runtime
/// has no target, or no sidecar name.
pub open spec fn spec_native_stage_step(config: DharaRepoConfig, rid: Seq<char>) -> Result<
    (Seq<char>, Seq<Seq<char>>, Seq<char>, Seq<char>),
    Seq<char>,
> {
    match spec_target_for(config.targets.rust_targets@, rid) {
        None => Err("missing rust target mapping for runtime '"@ + rid + "'"@),
        Some(target) => match spec_native_lib_filename(rid) {
            None => Err("unsupported runtime identifier for daemon sidecar name: "@ + rid),
            Some(lib) => Ok(
                (
                    rid,
                    seq!["build"@, "-p"@, "dhara-sd"@, "--release"@, "--target"@, target],
                    "target/"@ + target + "/release/"@ + lib,
                    "runtimes/"@ + rid + "/native/"@ + lib,
                ),
            ),
        },
    }
}

/// The stage step of `rid` (see `spec_native_stage_step`).
pub fn native_stage_step(config: &DharaRepoConfig, rid: &str) -> (r: Result<StageStep, String>)
    ensures
        match r {
            Ok(s) => spec_native_stage_step(*config, rid@) == Ok::<
                (Seq<char>, Seq<Seq<char>>, Seq<char>, Seq<char>),
                Seq<char>,
            >(stage_step_view(s)),
            Err(e) => spec_native_stage_step(*config, rid@) == Err::<
                (Seq<char>, Seq<Seq<char>>, Seq<char>, Seq<char>),
                Seq<char>,
            >(e@),
        },
{
    let target = match target_for(&config.targets.rust_targets, rid) {
        Some(t) => t,
        None => return Err(concat3("missing rust target mapping for runtime '", rid, "'")),
    };
    let lib = match native_lib_filename(rid) {
        Ok(l) => l,
        Err(e) => return Err(e),
    };
    let cargo_args = vec![
        "build".to_owned(),
        "-p".to_owned(),
        "dhara-sd".to_owned(),
        "--release".to_owned(),
        "--target".to_owned(),
        target.clone(),
    ];
    assert(string_views(cargo_args@) =~= seq!["build"@, "-p"@, "dhara-sd"@, "--release"@, "--target"@, target@]);
    let mut source = concat3("target/", target.as_str(), "/release/");
    source.append(lib);
    let mut destination = concat3("runtimes/", rid, "/native/");
    destination.append(lib);
    Ok(StageStep { runtime: rid.to_owned(), cargo_args, source, destination })
}

/// The stage root a host staging run fills: `native-stage` under `artifacts_root`; an error when
/// the host can build none of the configured runtimes, and otherwise when the configuration is
/// not `Release` in any letter case (only Release packaging is supported).
pub open spec fn spec_stage_native_for_host(
    config: DharaRepoConfig,
    options: PackageOptions,
    host_os: Seq<char>,
    host_arch: Seq<char>,
    artifacts_root: Seq<char>,
) -> Result<Seq<char>, Seq<char>> {
    if spec_staging(string_views(config.ci.native_runtimes@), options.include_cross_native, host_os, host_arch).len()
        == 0 {
        Err("no native runtimes are buildable on the current host"@)
    } else if lower_seq(options.configuration@) != "release"@ {
        Err("only Release packaging is currently supported"@)
    } else {
        Ok(crate::repo_config::spec_join(artifacts_root, "native-stage"@))
    }
}

/// The stage root of a host staging run (see `spec_stage_native_for_host`).
pub fn stage_native_for_host(
    config: &DharaRepoConfig,
    options: &PackageOptions,
    host_os: &str,
    host_arch: &str,
    artifacts_root: &str,
) -> (r: Result<String, String>)
    ensures
        match r {
            Ok(root) => spec_stage_native_for_host(*config, *options, host_os@, host_arch@, artifacts_root@) == Ok::<
                Seq<char>,
                Seq<char>,
            >(root@),
            Err(e) => spec_stage_native_for_host(*config, *options, host_os@, host_arch@, artifacts_root@) == Err::<
                Seq<char>,
                Seq<char>,
            >(e@),
        },
{
    let runtimes = staging_runtimes_on_host(
        config.ci.native_runtimes.as_slice(),
        options.include_cross_native,
        host_os,
        host_arch,
    );
    if runtimes.len() == 0 {
        return Err("no native runtimes are buildable on the current host".to_owned());
    }
    let lowered = to_ascii_lowercase(options.configuration.as_str());
    if !str_eq(lowered.as_str(), "release") {
        return Err("only Release packaging is currently supported".to_owned());
    }
    Ok(crate::repo_config::join_path(artifacts_root, "native-stage"))
}

/// Where a pack run takes its native libraries from: a stage prepared beforehand, or a fresh
/// stage it fills itself.
#[derive(Debug, Clone, PartialEq, Eq)]
pub enum PackStage {
    Prestaged(String),
    Fresh(String),
}

/// The stage of a pack run: the stage named by the options, else by the environment
/// (`env_stage`), taken under `repo_root` unless absolute; otherwise a fresh `native-stage`
/// under `artifacts_root`; an error when no stage is named and the host can build none of the
/// configured runtimes.
pub open spec fn spec_pack_stage(
    config: DharaRepoConfig,
    options: PackageOptions,
    env_stage: Option<Seq<char>>,
    host_os: Seq<char>,
    host_arch: Seq<char>,
    repo_root: Seq<char>,
    artifacts_root: Seq<char>,
) -> Result<(bool, Seq<char>), Seq<char>> {
    let named = match opt_text(options.native_stage_override) {
        Some(s) => Some(s),
        None => env_stage,
    };
    match named {
        Some(stage) => Ok((true, crate::repo_config::spec_join(repo_root, stage))),
        None => if spec_staging(string_views(config.ci.native_runtimes@), options.include_cross_native, host_os, host_arch).len()
            == 0 {
            Err("no native runtimes are buildable on the current host"@)
        } else {
            Ok((false, crate::repo_config::spec_join(artifacts_root, "native-stage"@)))
        },
    }
}

/// The stage of a pack run (see `spec_pack_stage`; `Prestaged` is `true` there).
pub fn pack_stage(
    config: &DharaRepoConfig,
    options: &PackageOptions,
    env_stage: Option<String>,
    host_os: &str,
    host_arch: &str,
    repo_root: &str,
    artifacts_root: &str,
) -> (r: Result<PackStage, String>)
    ensures
        spec_pack_stage(*config, *options, opt_text(env_stage), host_os@, host_arch@, repo_root@, artifacts_root@)
            == match r {
            Ok(PackStage::Prestaged(p)) => Ok::<(bool, Seq<char>), Seq<char>>((true, p@)),
            Ok(PackStage::Fresh(p)) => Ok::<(bool, Seq<char>), Seq<char>>((false, p@)),
            Err(e) => Err::<(bool, Seq<char>), Seq<char>>(e@),
        },
{
    let named = match &options.native_stage_override {
        Some(s) => Some(s.as_str()),
        None => match &env_stage {
            Some(s) => Some(s.as_str()),
            None => None,
        },
    };
    match named {
        Some(stage) => Ok(PackStage::Prestaged(crate::repo_config::join_path(repo_root, stage))),
        None => {
            let runtimes = staging_runtimes_on_host(
                config.ci.native_runtimes.as_slice(),
                options.include_cross_native,
                host_os,
                host_arch,
            );
            if runtimes.len() == 0 {
                Err("no native runtimes are buildable on the current host".to_owned())
            } else {
                Ok(PackStage::Fresh(crate::repo_config::join_path(artifacts_root, "native-stage")))
            }
        },
    }
}

/// What a host staging run reports once done.
pub fn staged_message(stage_root: &str) -> (r: String)
    ensures
        r@ == "Staged host native assets at "@ + stage_root@,
{
    concat("Staged host native assets at ", stage_root)
}

/// The managed assembly every package carries.
pub const MANAGED_ASSEMBLY_ENTRY: &'static str = "lib/net10.0/Dhara.Storage.dll";

/// The MSBuild targets file every package carries.
pub const BUILD_TARGETS_ENTRY: &'static str = "build/Dhara.Storage.targets";

/// The problem with the native libraries of `rids` in a package with `entries`: the first RID
/// without a sidecar name, or whose library `runtimes/<rid>/native/<lib>` is missing.
pub open spec fn first_native_problem(entries: Seq<Seq<char>>, rids: Seq<Seq<char>>) -> Option<Seq<char>>
    decreases rids.len(),
{
    if rids.len() == 0 {
        None
    } else {
        match spec_native_lib_filename(rids[0]) {
            None => Some("unsupported runtime identifier for daemon sidecar name: "@ + rids[0]),
            Some(lib) => {
                let expected = "runtimes/"@ + rids[0] + "/native/"@ + lib;
                if !entries.contains(expected) {
                    Some("native asset missing from package: "@ + expected)
                } else {
                    first_native_problem(entries, rids.drop_first())
                }
            },
        }
    }
}

/// What the package with `entries` lacks of its assemblies, in the order they are checked: the
/// managed assembly, the native library of each of `rids`, then the README.
pub open spec fn spec_check_package_assets(entries: Seq<Seq<char>>, rids: Seq<Seq<char>>) -> Result<(), Seq<char>> {
    if !entries.contains(MANAGED_ASSEMBLY_ENTRY@) {
        Err("managed assembly missing from package"@)
    } else {
        match first_native_problem(entries, rids) {
            Some(e) => Err(e),
            None => if !entries.contains("README.md"@) {
                Err("README.md missing from package"@)
            } else {
                Ok(())
            },
        }
    }
}

/// A check's outcome as plain values.
pub open spec fn check_result(r: Result<(), String>) -> Result<(), Seq<char>> {
    match r {
        Ok(()) => Ok(()),
        Err(e) => Err(e@),
    }
}

/// Checks the assemblies of a package with `entries` for the native runtimes `rids` (see
/// `spec_check_package_assets`).
pub fn check_package_assets(entries: &Vec<String>, rids: &Vec<String>) -> (r: Result<(), String>)
    ensures
        check_result(r) == spec_check_package_assets(string_views(entries@), string_views(rids@)),
{
    let ghost es = string_views(entries@);
    let ghost rs = string_views(rids@);
    if !contains_string(entries, MANAGED_ASSEMBLY_ENTRY) {
        return Err("managed assembly missing from package".to_owned());
    }
    let mut i: usize = 0;
    assert(rs.skip(0) =~= rs);
    while i < rids.len()
        invariant
            i <= rids@.len(),
            es == string_views(entries@),
            rs == string_views(rids@),
            first_native_problem(es, rs) == first_native_problem(es, rs.skip(i as int)),
            es.contains(MANAGED_ASSEMBLY_ENTRY@),
        decreases rids.len() - i,
    {
        assert(rs.skip(i as int)[0] == rids@[i as int]@);
        assert(rs.skip(i as int).drop_first() =~= rs.skip(i + 1));
        let rid = rids[i].as_str();
        let lib = match native_lib_filename(rid) {
            Ok(l) => l,
            Err(e) => return Err(e),
        };
        let mut expected = concat3("runtimes/", rid, "/native/");
        expected.append(lib);
        if !contains_string(entries, expected.as_str()) {
            return Err(concat("native asset missing from package: ", expected.as_str()));
        }
        i += 1;
    }
    assert(rs.skip(i as int) =~= Seq::<Seq<char>>::empty());
    if !contains_string(entries, "README.md") {
        return Err("README.md missing from package".to_owned());
    }
    Ok(())
}

/// What the package with `entries` lacks besides its assemblies: the file named by the project's
/// `PackageIcon` (`icon`, when set; an error when its path has no file name), then the MSBuild
/// targets.
pub open spec fn spec_check_package_icon_and_targets(entries: Seq<Seq<char>>, icon: Option<Seq<char>>) -> Result<
    (),
    Seq<char>,
> {
    let targets = if !entries.contains(BUILD_TARGETS_ENTRY@) {
        Err("build/Dhara.Storage.targets missing from package"@)
    } else {
        Ok(())
    };
    match icon {
        None => targets,
        Some(i) => match file_name_before(i, i.len() as int) {
            None => Err("PackageIcon path must end with a file name: "@ + i),
            Some(name) => if !entries.contains(name) {
                Err("package icon missing from package: "@ + name)
            } else {
                targets
            },
        },
    }
}

/// Checks the icon and targets of a package with `entries` (see
/// `spec_check_package_icon_and_targets`).
pub fn check_package_icon_and_targets(entries: &Vec<String>, icon: Option<String>) -> (r: Result<(), String>)
    ensures
        check_result(r) == spec_check_package_icon_and_targets(string_views(entries@), opt_text(icon)),
{
    if let Some(i) = icon {
        match path_file_name(i.as_str()) {
            None => return Err(concat("PackageIcon path must end with a file name: ", i.as_str())),
            Some(name) => {
                if !contains_string(entries, name.as_str()) {
                    return Err(concat("package icon missing from package: ", name.as_str()));
                }
            },
        }
    }
    if !contains_string(entries, BUILD_TARGETS_ENTRY) {
        return Err("build/Dhara.Storage.targets missing from package".to_owned());
    }
    Ok(())
}

/// True when a file of the package output directory is published: a `.nupkg` package (not the
/// bare name `.nupkg`, which has no extension) that is not a symbols package.
pub open spec fn is_publishable(name: Seq<char>) -> bool {
    has_suffix(name, ".nupkg"@) && name != ".nupkg"@ && !has_suffix(name, ".symbols.nupkg"@)
}

/// `x` placed in `s` before the first name that does not sort before it.
pub open spec fn insert_sorted(s: Seq<Seq<char>>, x: Seq<char>) -> Seq<Seq<char>>
    decreases s.len(),
{
    if s.len() == 0 {
        seq![x]
    } else if seq_lt(s[0], x) {
        seq![s[0]] + insert_sorted(s.drop_first(), x)
    } else {
        seq![x] + s
    }
}

/// `xs` in string order, built by inserting them one by one.
pub open spec fn sort_names(xs: Seq<Seq<char>>) -> Seq<Seq<char>>
    decreases xs.len(),
{
    if xs.len() == 0 {
        Seq::empty()
    } else {
        insert_sorted(sort_names(xs.drop_last()), xs.last())
    }
}

/// No name sorts before one that comes earlier.
pub open spec fn names_sorted(s: Seq<Seq<char>>) -> bool {
    forall|i: int, j: int| 0 <= i < j < s.len() ==> !seq_lt(#[trigger] s[j], #[trigger] s[i])
}

/// The packages a publishing run pushes from a directory holding `names`: the publishable ones,
/// in string order.
pub open spec fn spec_publishable_packages(names: Seq<Seq<char>>) -> Seq<Seq<char>> {
    sort_names(names.filter(|n: Seq<char>| is_publishable(n)))
}

proof fn lemma_insert_sorted_at(s: Seq<Seq<char>>, x: Seq<char>, p: int)
    requires
        0 <= p <= s.len(),
        forall|i: int| 0 <= i < p ==> seq_lt(#[trigger] s[i], x),
        p < s.len() ==> !seq_lt(s[p], x),
    ensures
        insert_sorted(s, x) == s.insert(p, x),
    decreases p,
{
    if p > 0 {
        let t = s.drop_first();
        assert forall|i: int| 0 <= i < p - 1 implies seq_lt(#[trigger] t[i], x) by {
            assert(seq_lt(s[i + 1], x));
        }
        lemma_insert_sorted_at(t, x, p - 1);
        assert(seq_lt(s[0], x));
        assert(s.insert(p, x) =~= seq![s[0]] + t.insert(p - 1, x));
    } else {
        assert(s.insert(0, x) =~= seq![x] + s);
    }
}

proof fn lemma_insert_keeps_sorted(s: Seq<Seq<char>>, x: Seq<char>, p: int)
    requires
        names_sorted(s),
        0 <= p <= s.len(),
        forall|i: int| 0 <= i < p ==> seq_lt(#[trigger] s[i], x),
        p < s.len() ==> !seq_lt(s[p], x),
    ensures
        names_sorted(s.insert(p, x)),
{
    let n = s.insert(p, x);
    assert forall|i: int, j: int| 0 <= i < j < n.len() implies !seq_lt(#[trigger] n[j], #[trigger] n[i]) by {
        if j < p {
            assert(!seq_lt(s[j], s[i]));
        } else if j == p {
            crate::text::lemma_seq_lt_asymmetric(s[i], x);
        } else if i == p {
            let y = s[j - 1];
            if seq_lt(y, x) {
                if j - 1 > p {
                    assert(!seq_lt(s[j - 1], s[p]));
                    crate::text::lemma_seq_lt_total(s[p], y);
                    if seq_lt(s[p], y) {
                        crate::text::lemma_seq_lt_transitive(s[p], y, x);
                    }
                }
            }
        } else if i < p {
            assert(!seq_lt(s[j - 1], s[i]));
        } else {
            assert(!seq_lt(s[j - 1], s[i - 1]));
        }
    }
}

/// Inserts `x` into the sorted list `out` at its place (see `insert_sorted`).
fn insert_name(out: &mut Vec<String>, x: String)
    requires
        names_sorted(string_views(old(out)@)),
    ensures
        string_views(final(out)@) == insert_sorted(string_views(old(out)@), x@),
        names_sorted(string_views(final(out)@)),
{
    let ghost s = string_views(out@);
    let n = out.len();
    let mut p: usize = 0;
    while p < n && str_lt(out[p].as_str(), x.as_str())
        invariant
            p <= n == out@.len(),
            s == string_views(out@),
            forall|i: int| 0 <= i < p ==> seq_lt(#[trigger] s[i], x@),
        decreases n - p,
    {
        assert(s[p as int] == out@[p as int]@);
        p += 1;
    }
    proof {
        if p < n {
            assert(s[p as int] == out@[p as int]@);
        }
        lemma_insert_sorted_at(s, x@, p as int);
        lemma_insert_keeps_sorted(s, x@, p as int);
    }
    let ghost xv = x@;
    out.insert(p, x);
    assert(string_views(out@) =~= s.insert(p as int, xv));
}

/// The packages to push from a directory holding `names` (see `spec_publishable_packages`).
pub fn publishable_packages(names: &Vec<String>) -> (r: Vec<String>)
    ensures
        string_views(r@) == spec_publishable_packages(string_views(names@)),
        names_sorted(string_views(r@)),
{
    let ghost all = string_views(names@);
    let ghost pred = |n: Seq<char>| is_publishable(n);
    let mut out: Vec<String> = Vec::new();
    let mut i: usize = 0;
    assert(all.take(0).filter(pred) =~= Seq::<Seq<char>>::empty());
    assert(string_views(out@) =~= Seq::<Seq<char>>::empty());
    while i < names.len()
        invariant
            i <= names@.len(),
            all == string_views(names@),
            pred == (|n: Seq<char>| is_publishable(n)),
            string_views(out@) == sort_names(all.take(i as int).filter(pred)),
            names_sorted(string_views(out@)),
        decreases names.len() - i,
    {
        let name = names[i].as_str();
        let keep = ends_with(name, ".nupkg") && !str_eq(name, ".nupkg") && !ends_with(name, ".symbols.nupkg");
        proof {
            assert(all.take(i + 1) =~= all.take(i as int).push(all[i as int]));
            assert(all[i as int] == names@[i as int]@);
            all.take(i as int).lemma_filter_push(all[i as int], pred);
        }
        if keep {
            let ghost f = all.take(i as int).filter(pred);
            insert_name(&mut out, names[i].clone());
            proof {
                assert(f.push(all[i as int]).drop_last() =~= f);
            }
        }
        i += 1;
    }
    assert(all.take(all.len() as int) =~= all);
    out
}

/// Packages are published in string order: sorting yields the names in order, as many as
/// were given.
pub proof fn law_publish_order_sorted(names: Seq<Seq<char>>)
    ensures
        names_sorted(sort_names(names)),
        sort_names(names).len() == names.len(),
    decreases names.len(),
{
    if names.len() > 0 {
        let s = sort_names(names.drop_last());
        let x = names.last();
        law_publish_order_sorted(names.drop_last());
        let p = first_not_before(s, x, 0);
        lemma_first_not_before(s, x, 0);
        lemma_insert_sorted_at(s, x, p);
        lemma_insert_keeps_sorted(s, x, p);
    }
}

/// The first index from `i` whose name does not sort before `x`.
pub open spec fn first_not_before(s: Seq<Seq<char>>, x: Seq<char>, i: int) -> int
    decreases s.len() - i,
{
    if i < 0 || i >= s.len() || !seq_lt(s[i], x) {
        i
    } else {
        first_not_before(s, x, i + 1)
    }
}

proof fn lemma_first_not_before(s: Seq<Seq<char>>, x: Seq<char>, i: int)
    requires
        0 <= i <= s.len(),
        forall|k: int| 0 <= k < i ==> seq_lt(#[trigger] s[k], x),
    ensures
        i <= first_not_before(s, x, i) <= s.len(),
        forall|k: int| 0 <= k < first_not_before(s, x, i) ==> seq_lt(#[trigger] s[k], x),
        first_not_before(s, x, i) < s.len() ==> !seq_lt(s[first_not_before(s, x, i)], x),
    decreases s.len() - i,
{
    if i < s.len() && seq_lt(s[i], x) {
        lemma_first_not_before(s, x, i + 1);
    }
}

/// The packages a run that publishes already packed packages pushes: the given package (an
/// error when it does not exist), else the publishable packages of `nuget_dir`, which holds
/// `listing` (an error when there are none), each under the directory.
pub open spec fn spec_packages_to_push(
    options: PackageOptions,
    nuget_dir: Seq<char>,
    listing: Seq<Seq<char>>,
    prepacked_exists: bool,
) -> Result<Seq<Seq<char>>, Seq<char>> {
    match options.prepacked_nuget_override {
        Some(p) => if !prepacked_exists {
            Err("NuGet package does not exist: "@ + p@)
        } else {
            Ok(seq![p@])
        },
        None => {
            let ps = spec_publishable_packages(listing);
            if ps.len() == 0 {
                Err("no NuGet packages found in "@ + nuget_dir)
            } else {
                Ok(ps.map_values(|n: Seq<char>| crate::repo_config::spec_join(nuget_dir, n)))
            }
        },
    }
}

/// What a publishing run pushes: to which feed, which packages, and the push command of each.
#[derive(Debug, Clone, PartialEq, Eq)]
pub struct PushPlan {
    pub source: String,
    pub packages: Vec<String>,
    pub commands: Vec<Vec<String>>,
}

/// The packages to push (see `spec_packages_to_push`).
pub fn packages_to_push(options: &PackageOptions, nuget_dir: &str, listing: &Vec<String>, prepacked_exists: bool) -> (r:
    Result<Vec<String>, String>)
    ensures
        args_result(r) == spec_packages_to_push(*options, nuget_dir@, string_views(listing@), prepacked_exists),
{
    match &options.prepacked_nuget_override {
        Some(p) => {
            if !prepacked_exists {
                return Err(concat("NuGet package does not exist: ", p.as_str()));
            }
            let one = vec![p.clone()];
            assert(string_views(one@) =~= seq![p@]);
            Ok(one)
        },
        None => {
            let names = publishable_packages(listing);
            if names.len() == 0 {
                return Err(concat("no NuGet packages found in ", nuget_dir));
            }
            let ghost ns = string_views(names@);
            let mut out: Vec<String> = Vec::new();
            let mut i: usize = 0;
            while i < names.len()
                invariant
                    i <= names@.len(),
                    ns == string_views(names@),
                    string_views(out@) == ns.take(i as int).map_values(
                        |n: Seq<char>| crate::repo_config::spec_join(nuget_dir@, n),
                    ),
                decreases names.len() - i,
            {
                let ghost before = out@;
                let full = crate::repo_config::join_path(nuget_dir, names[i].as_str());
                out.push(full);
                proof {
                    crate::command::lemma_string_views_push(before, full);
                    assert(ns.take(i + 1) =~= ns.take(i as int).push(ns[i as int]));
                    assert(ns.take(i + 1).map_values(|n: Seq<char>| crate::repo_config::spec_join(nuget_dir@, n))
                        =~= ns.take(i as int).map_values(|n: Seq<char>| crate::repo_config::spec_join(nuget_dir@, n)).push(
                        crate::repo_config::spec_join(nuget_dir@, ns[i as int]),
                    ));
                }
                i += 1;
            }
            assert(ns.take(ns.len() as int) =~= ns);
            Ok(out)
        },
    }
}

/// What a run that publishes already packed packages does, from the parsed environment file
/// `env_entries`, the process environment's `NUGET_SOURCE` and `NUGET_API_KEY`, and the files
/// `listing` of the package directory `nuget_dir`: the feed (see `spec_effective_source`), the
/// API key (an error when unset), the packages (see `spec_packages_to_push`) and a push of each
/// package with the key to the feed.
pub fn publish_packed(
    options: &PackageOptions,
    config: &DharaRepoConfig,
    env_entries: &Vec<(String, String)>,
    process_source: Option<String>,
    process_api_key: Option<String>,
    nuget_dir: &str,
    listing: &Vec<String>,
    prepacked_exists: bool,
) -> (r: Result<PushPlan, String>)
    ensures
        ({
            let env = crate::repo_config::entry_views(env_entries@);
            let source = spec_effective_source(
                *options,
                crate::repo_config::spec_env_value(env, "NUGET_SOURCE"@),
                opt_text(process_source),
                *config,
            );
            match spec_secret_from_env(
                "NUGET_API_KEY"@,
                crate::repo_config::spec_env_value(env, "NUGET_API_KEY"@),
                opt_text(process_api_key),
            ) {
                Err(e) => r matches Err(m) && m@ == e,
                Ok(key) => match spec_packages_to_push(*options, nuget_dir@, string_views(listing@), prepacked_exists) {
                    Err(e) => r matches Err(m) && m@ == e,
                    Ok(ps) => r matches Ok(plan) && {
                        &&& plan.source@ == source
                        &&& string_views(plan.packages@) == ps
                        &&& plan.commands@.len() == ps.len()
                        &&& forall|i: int|
                            0 <= i < ps.len() ==> string_views(#[trigger] plan.commands@[i]@) == push_argv(
                                ps[i],
                                key,
                                source,
                            )
                    },
                },
            }
        }),
{
    let source = effective_source(
        options,
        crate::repo_config::env_value(env_entries, "NUGET_SOURCE"),
        process_source,
        config,
    );
    let api_key = match secret_from_env(
        crate::repo_config::NUGET_API_KEY_ENV,
        crate::repo_config::env_value(env_entries, crate::repo_config::NUGET_API_KEY_ENV),
        process_api_key,
    ) {
        Ok(k) => k,
        Err(e) => return Err(e),
    };
    let packages = match packages_to_push(options, nuget_dir, listing, prepacked_exists) {
        Ok(p) => p,
        Err(e) => return Err(e),
    };
    let ghost ps = string_views(packages@);
    let mut commands: Vec<Vec<String>> = Vec::new();
    let mut i: usize = 0;
    while i < packages.len()
        invariant
            i <= packages@.len(),
            ps == string_views(packages@),
            commands@.len() == i,
            forall|k: int|
                0 <= k < i ==> string_views(#[trigger] commands@[k]@) == push_argv(ps[k], api_key@, source@),
        decreases packages.len() - i,
    {
        let c = push_args(packages[i].as_str(), api_key.as_str(), source.as_str());
        commands.push(c);
        i += 1;
    }
    Ok(PushPlan { source, packages, commands })
}

/// `s` without the entries equal to the one before them.
pub open spec fn dedup_adjacent(s: Seq<Seq<char>>) -> Seq<Seq<char>>
    decreases s.len(),
{
    if s.len() <= 1 {
        s
    } else if s[s.len() - 1] == s[s.len() - 2] {
        dedup_adjacent(s.drop_last())
    } else {
        dedup_adjacent(s.drop_last()).push(s.last())
    }
}

/// The `.nuget/packages` folder under `home`.
pub open spec fn nuget_packages_under(home: Seq<char>) -> Seq<char> {
    crate::repo_config::spec_join(crate::repo_config::spec_join(home, ".nuget"@), "packages"@)
}

/// The NuGet package caches a restore may use, from the environment's `NUGET_PACKAGES`,
/// `DOTNET_CLI_HOME`, `USERPROFILE` (else `HOME`) and the repository's own `.dotnet` folder.
pub open spec fn package_roots(
    nuget_packages: Option<Seq<char>>,
    dotnet_cli_home: Option<Seq<char>>,
    user_home: Option<Seq<char>>,
    repo_root: Seq<char>,
) -> Seq<Seq<char>> {
    let a = match nuget_packages {
        Some(p) => seq![p],
        None => Seq::empty(),
    };
    let b = match dotnet_cli_home {
        Some(h) => seq![nuget_packages_under(h)],
        None => Seq::empty(),
    };
    let c = match user_home {
        Some(h) => seq![nuget_packages_under(h)],
        None => Seq::empty(),
    };
    a + b + c + seq![nuget_packages_under(crate::repo_config::spec_join(repo_root, ".dotnet"@))]
}

/// The cached copies of package `package_id` at `version` that a fresh restore must not see:
/// under each distinct package cache (in string order), the lower-cased package id, then the
/// version.
pub open spec fn spec_package_cache_dirs(
    nuget_packages: Option<Seq<char>>,
    dotnet_cli_home: Option<Seq<char>>,
    user_profile: Option<Seq<char>>,
    home: Option<Seq<char>>,
    repo_root: Seq<char>,
    package_id: Seq<char>,
    version: Seq<char>,
) -> Seq<Seq<char>> {
    let user_home = match user_profile {
        Some(p) => Some(p),
        None => home,
    };
    dedup_adjacent(sort_names(package_roots(nuget_packages, dotnet_cli_home, user_home, repo_root))).map_values(
        |root: Seq<char>| crate::repo_config::spec_join(crate::repo_config::spec_join(root, lower_seq(package_id)), version),
    )
}

/// The cached copies of a package to remove before a restore (see `spec_package_cache_dirs`).
pub fn package_cache_dirs(
    nuget_packages: Option<String>,
    dotnet_cli_home: Option<String>,
    user_profile: Option<String>,
    home: Option<String>,
    repo_root: &str,
    package_id: &str,
    version: &str,
) -> (r: Vec<String>)
    ensures
        string_views(r@) == spec_package_cache_dirs(
            opt_text(nuget_packages),
            opt_text(dotnet_cli_home),
            opt_text(user_profile),
            opt_text(home),
            repo_root@,
            package_id@,
            version@,
        ),
{
    let user_home = match user_profile {
        Some(p) => Some(p),
        None => home,
    };
    let ghost uh = opt_text(user_home);
    let mut roots: Vec<String> = Vec::new();
    if let Some(p) = nuget_packages {
        roots.push(p);
    }
    if let Some(h) = dotnet_cli_home {
        roots.push(join_path(join_path(h.as_str(), ".nuget").as_str(), "packages"));
    }
    if let Some(h) = user_home {
        roots.push(join_path(join_path(h.as_str(), ".nuget").as_str(), "packages"));
    }
    let dotnet = join_path(repo_root, ".dotnet");
    roots.push(join_path(join_path(dotnet.as_str(), ".nuget").as_str(), "packages"));
    assert(string_views(roots@) =~= package_roots(
        opt_text(nuget_packages),
        opt_text(dotnet_cli_home),
        uh,
        repo_root@,
    ));
    let ghost all = string_views(roots@);
    let mut sorted: Vec<String> = Vec::new();
    let mut i: usize = 0;
    assert(all.take(0) =~= Seq::<Seq<char>>::empty());
    while i < roots.len()
        invariant
            i <= roots@.len(),
            all == string_views(roots@),
            string_views(sorted@) == sort_names(all.take(i as int)),
            names_sorted(string_views(sorted@)),
        decreases roots.len() - i,
    {
        proof {
            assert(all.take(i + 1).drop_last() =~= all.take(i as int));
            assert(all.take(i + 1).last() == roots@[i as int]@);
        }
        insert_name(&mut sorted, roots[i].clone());
        i += 1;
    }
    assert(all.take(all.len() as int) =~= all);
    let ghost ss = string_views(sorted@);
    let lowered = to_ascii_lowercase(package_id);
    let mut out: Vec<String> = Vec::new();
    let ghost f = |root: Seq<char>| crate::repo_config::spec_join(crate::repo_config::spec_join(root, lower_seq(package_id@)), version@);
    let mut k: usize = 0;
    assert(ss.take(0) =~= Seq::<Seq<char>>::empty());
    while k < sorted.len()
        invariant
            k <= sorted@.len(),
            ss == string_views(sorted@),
            lowered@ == lower_seq(package_id@),
            f == (|root: Seq<char>| crate::repo_config::spec_join(crate::repo_config::spec_join(root, lower_seq(package_id@)), version@)),
            string_views(out@) == dedup_adjacent(ss.take(k as int)).map_values(f),
        decreases sorted.len() - k,
    {
        let ghost before = out@;
        proof {
            assert(ss.take(k + 1).drop_last() =~= ss.take(k as int));
            assert(ss.take(k + 1).last() == sorted@[k as int]@);
            if k > 0 {
                assert(ss.take(k + 1)[k - 1] == sorted@[k - 1]@);
            }
        }
        let repeat = k > 0 && crate::text::str_eq(sorted[k].as_str(), sorted[k - 1].as_str());
        if !repeat {
            let dir = join_path(join_path(sorted[k].as_str(), lowered.as_str()).as_str(), version);
            out.push(dir);
            proof {
                crate::command::lemma_string_views_push(before, dir);
                assert(dedup_adjacent(ss.take(k + 1)) =~= dedup_adjacent(ss.take(k as int)).push(ss[k as int]));
                assert(dedup_adjacent(ss.take(k + 1)).map_values(f) =~= dedup_adjacent(ss.take(k as int)).map_values(f).push(
                    f(ss[k as int]),
                ));
            }
        } else {
            proof {
                assert(dedup_adjacent(ss.take(k + 1)) =~= dedup_adjacent(ss.take(k as int)));
            }
        }
        k += 1;
    }
    assert(ss.take(ss.len() as int) =~= ss);
    out
}

/// The package entry the sidecar of `rid` must have: `runtimes/<rid>/native/<file>`.
pub open spec fn sidecar_entry_present(entries: Seq<Seq<char>>, rid: Seq<char>) -> bool {
    spec_native_lib_filename(rid) matches Some(lib) && entries.contains("runtimes/"@ + rid + "/native/"@ + lib)
}

proof fn lemma_no_native_problem(entries: Seq<Seq<char>>, rids: Seq<Seq<char>>)
    ensures
        first_native_problem(entries, rids) is None <==> forall|i: int|
            0 <= i < rids.len() ==> #[trigger] sidecar_entry_present(entries, rids[i]),
    decreases rids.len(),
{
    if rids.len() > 0 {
        lemma_no_native_problem(entries, rids.drop_first());
        assert forall|i: int| 0 < i < rids.len() implies #[trigger] sidecar_entry_present(entries, rids[i])
            == sidecar_entry_present(entries, rids.drop_first()[i - 1]) by {
            assert(rids.drop_first()[i - 1] == rids[i]);
        }
        if first_native_problem(entries, rids) is None {
            assert forall|i: int| 0 <= i < rids.len() implies #[trigger] sidecar_entry_present(entries, rids[i]) by {
                if i > 0 {
                    assert(sidecar_entry_present(entries, rids.drop_first()[i - 1]));
                }
            }
        } else if forall|i: int| 0 <= i < rids.len() ==> #[trigger] sidecar_entry_present(entries, rids[i]) {
            assert(sidecar_entry_present(entries, rids[0]));
            assert forall|i: int| 0 <= i < rids.drop_first().len() implies #[trigger] sidecar_entry_present(
                entries,
                rids.drop_first()[i],
            ) by {
                assert(sidecar_entry_present(entries, rids[i + 1]));
            }
        }
    }
}

/// A package passes the check exactly when it holds the managed assembly, the README and, for
/// every runtime of `rids`, that runtime's sidecar under `runtimes/<rid>/native/`; when a
/// runtime's sidecar is missing, the check fails.
pub proof fn law_package_check_covers_every_runtime(entries: Seq<Seq<char>>, rids: Seq<Seq<char>>)
    ensures
        spec_check_package_assets(entries, rids) is Ok <==> {
            &&& entries.contains(MANAGED_ASSEMBLY_ENTRY@)
            &&& entries.contains("README.md"@)
            &&& forall|i: int| 0 <= i < rids.len() ==> #[trigger] sidecar_entry_present(entries, rids[i])
        },
        forall|i: int|
            0 <= i < rids.len() && !#[trigger] sidecar_entry_present(entries, rids[i]) ==> spec_check_package_assets(
                entries,
                rids,
            ) is Err,
{
    lemma_no_native_problem(entries, rids);
}

} // verus!
