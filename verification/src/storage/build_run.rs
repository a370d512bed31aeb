//! The local build workflow (`build run`): which of its steps a run takes and in which order,
//! how each step is announced, how host native assets get staged, and the package options
//! its verification step packs with. Running the steps is the host's part.
use vstd::prelude::*;

use crate::command::string_views;
use crate::repo_config::{DharaRepoConfig, join_path, spec_join};
use crate::storage::native_rids::{spec_staging, staging_runtimes_on_host};
use crate::storage::nuget::{PackageOptions, opt_text};
use crate::text::{concat, concat3, lower_seq, str_eq, to_ascii_lowercase};

verus! {

/// Options of the composite local build workflow.
#[derive(Debug, Clone)]
pub struct BuildRunOptions {
    pub skip_config: bool,
    pub skip_defs: bool,
    pub skip_quality: bool,
    pub skip_docs: bool,
    pub skip_dotnet: bool,
    pub skip_native: bool,
    pub skip_verify: bool,
    pub cross_native: bool,
    pub configuration: String,
}

/// A step of the build workflow.
#[derive(Debug, Clone, Copy, PartialEq, Eq, Structural)]
pub enum BuildStep {
    /// Apply the configuration drift to the manifests.
    Config,
    /// Refresh the embedded definitions package.
    Defs,
    /// Format, lint, document and test.
    Quality,
    /// Stage the host native assets.
    Native,
    /// Pack the NuGet package and run the consumer smoke checks.
    Verify,
}

/// `step` alone when `skipped` is false, nothing otherwise.
pub open spec fn unless_skipped(skipped: bool, step: BuildStep) -> Seq<BuildStep> {
    if skipped {
        Seq::empty()
    } else {
        seq![step]
    }
}

/// The steps a run takes, in dependency order: configuration, definitions, quality, native
/// staging, verification, each unless skipped.
pub open spec fn spec_build_steps(o: BuildRunOptions) -> Seq<BuildStep> {
    unless_skipped(o.skip_config, BuildStep::Config) + unless_skipped(o.skip_defs, BuildStep::Defs)
        + unless_skipped(o.skip_quality, BuildStep::Quality) + unless_skipped(o.skip_native, BuildStep::Native)
        + unless_skipped(o.skip_verify, BuildStep::Verify)
}

fn push_unless_skipped(steps: &mut Vec<BuildStep>, skipped: bool, step: BuildStep)
    ensures
        final(steps)@ == old(steps)@ + unless_skipped(skipped, step),
{
    if !skipped {
        steps.push(step);
    }
    assert(final(steps)@ =~= old(steps)@ + unless_skipped(skipped, step));
}

/// The steps a run takes (see `spec_build_steps`).
pub fn build_run_steps(options: &BuildRunOptions) -> (r: Vec<BuildStep>)
    ensures
        r@ == spec_build_steps(*options),
{
    let mut steps: Vec<BuildStep> = Vec::new();
    assert(steps@ =~= Seq::<BuildStep>::empty());
    push_unless_skipped(&mut steps, options.skip_config, BuildStep::Config);
    push_unless_skipped(&mut steps, options.skip_defs, BuildStep::Defs);
    push_unless_skipped(&mut steps, options.skip_quality, BuildStep::Quality);
    push_unless_skipped(&mut steps, options.skip_native, BuildStep::Native);
    push_unless_skipped(&mut steps, options.skip_verify, BuildStep::Verify);
    assert(steps@ =~= spec_build_steps(*options));
    steps
}

/// The id, the title and the detail line a step is planned and reported with.
pub open spec fn spec_step_texts(step: BuildStep) -> (&'static str, &'static str, &'static str) {
    match step {
        BuildStep::Config => (
            "config",
            "Applying configuration drift",
            "Synchronizing dhara.config.toml into manifests",
        ),
        BuildStep::Defs => (
            "defs",
            "Syncing embedded definitions",
            "Refreshing runtime filedefs.dat when TrID input is available",
        ),
        BuildStep::Quality => ("quality", "Running quality checks", "Running fmt, clippy, doc, and tests"),
        BuildStep::Native => ("native", "Staging host native assets", "Building dhara-sd for host runtimes"),
        BuildStep::Verify => ("verify", "Verifying NuGet package", "Packing and running consumer smoke checks"),
    }
}

/// The texts of a step (see `spec_step_texts`).
pub fn step_texts(step: BuildStep) -> (r: (&'static str, &'static str, &'static str))
    ensures
        r == spec_step_texts(step),
{
    match step {
        BuildStep::Config => (
            "config",
            "Applying configuration drift",
            "Synchronizing dhara.config.toml into manifests",
        ),
        BuildStep::Defs => (
            "defs",
            "Syncing embedded definitions",
            "Refreshing runtime filedefs.dat when TrID input is available",
        ),
        BuildStep::Quality => ("quality", "Running quality checks", "Running fmt, clippy, doc, and tests"),
        BuildStep::Native => ("native", "Staging host native assets", "Building dhara-sd for host runtimes"),
        BuildStep::Verify => ("verify", "Verifying NuGet package", "Packing and running consumer smoke checks"),
    }
}

/// How the native step stages: on Windows, cross-native staging re-runs the tool inside the
/// Visual Studio developer environment; otherwise the host stages directly.
#[derive(Debug, Clone, Copy, PartialEq, Eq, Structural)]
pub enum NativeStaging {
    UnderMsvcEnvironment,
    OnHost,
}

/// How the native step stages for an `os` host (see `NativeStaging`).
pub fn native_staging(host_os: &str, include_cross_native: bool) -> (r: NativeStaging)
    ensures
        r == if host_os@ == "windows"@ && include_cross_native {
            NativeStaging::UnderMsvcEnvironment
        } else {
            NativeStaging::OnHost
        },
{
    if str_eq(host_os, "windows") && include_cross_native {
        NativeStaging::UnderMsvcEnvironment
    } else {
        NativeStaging::OnHost
    }
}

/// The command line run inside the developer environment: the tool at `exe` staging natives
/// for the repository at `repo_root`, with the configuration named unless it is `Release` in
/// any letter case.
pub open spec fn spec_msvc_stage_command(exe: Seq<char>, repo_root: Seq<char>, configuration: Seq<char>) -> Seq<char> {
    let base = "\""@ + exe + "\" -r \""@ + repo_root + "\" --yes package stage-native"@;
    if lower_seq(configuration) == lower_seq("Release"@) {
        base
    } else {
        base + " --configuration "@ + configuration
    }
}

/// The command line of a staging run inside the developer environment (see
/// `spec_msvc_stage_command`).
pub fn msvc_stage_command(exe: &str, repo_root: &str, configuration: &str) -> (r: String)
    ensures
        r@ == spec_msvc_stage_command(exe@, repo_root@, configuration@),
{
    let mut command = concat3("\"", exe, "\" -r \"");
    command.append(repo_root);
    command.append("\" --yes package stage-native");
    let lowered = to_ascii_lowercase(configuration);
    let release = to_ascii_lowercase("Release");
    if !str_eq(lowered.as_str(), release.as_str()) {
        command.append(" --configuration ");
        command.append(configuration);
    }
    command
}

/// The package options the verification step packs with: the run's configuration and cross
/// native choice, the output directory of the context, no publishing; when the native step
/// ran, the stage under `<tool_root>/artifacts/native-stage` and exactly the runtimes staged
/// on the host.
pub open spec fn build_options_match(
    r: PackageOptions,
    o: BuildRunOptions,
    output_dir: Option<String>,
    tool_root: Seq<char>,
    staged: Seq<Seq<char>>,
) -> bool {
    &&& r.configuration@ == o.configuration@
    &&& r.version_override is None
    &&& r.source_override is None
    &&& opt_text(r.output_dir) == opt_text(output_dir)
    &&& !r.execute_publish
    &&& r.prepacked_nuget_override is None
    &&& r.include_cross_native == o.cross_native
    &&& if o.skip_native {
        r.native_stage_override is None && r.expected_native_runtimes is None
    } else {
        &&& opt_text(r.native_stage_override) == Some(spec_join(spec_join(tool_root, "artifacts"@), "native-stage"@))
        &&& r.expected_native_runtimes matches Some(v) && string_views(v@) == staged
    }
}

fn copy_text(o: &Option<String>) -> (r: Option<String>)
    ensures
        opt_text(r) == opt_text(*o),
{
    match o {
        Some(s) => Some(s.clone()),
        None => None,
    }
}

/// The package options of the verification step of a run on an `os`/`arch` host (see
/// `build_options_match`; the staged runtimes are those of `spec_staging`).
pub fn build_run_package_options(
    options: &BuildRunOptions,
    config: &DharaRepoConfig,
    output_dir: &Option<String>,
    tool_root: &str,
    host_os: &str,
    host_arch: &str,
) -> (r: PackageOptions)
    ensures
        build_options_match(
            r,
            *options,
            *output_dir,
            tool_root@,
            spec_staging(string_views(config.ci.native_runtimes@), options.cross_native, host_os@, host_arch@),
        ),
{
    let staged = staging_runtimes_on_host(config.ci.native_runtimes.as_slice(), options.cross_native, host_os, host_arch);
    let (stage, expected) = if options.skip_native {
        (None, None)
    } else {
        let artifacts = join_path(tool_root, "artifacts");
        (Some(join_path(artifacts.as_str(), "native-stage")), Some(staged))
    };
    PackageOptions {
        configuration: options.configuration.clone(),
        version_override: None,
        source_override: None,
        output_dir: copy_text(output_dir),
        execute_publish: false,
        native_stage_override: stage,
        prepacked_nuget_override: None,
        include_cross_native: options.cross_native,
        expected_native_runtimes: expected,
    }
}

} // verus!
