//! Keyed product UI copy for command articles and option fields.
use vstd::prelude::*;

use crate::text::str_eq;

verus! {

/// The UI text stored under `key`; `<missing>` for a key that has none.
pub open spec fn spec_ui_string(key: Seq<char>) -> &'static str {
    if key == "cmd.config.show.description"@ {
        "Inspect the effective Dhara repository configuration and resolved environment."
    } else if key == "cmd.config.env.init.description"@ {
        "Create .env.local from .env.example when the local file is missing."
    } else if key == "cmd.version.set.description"@ {
        "Set the shared workspace version used by both Cargo and NuGet metadata."
    } else if key == "cmd.version.set.field.version.label"@ {
        "Version"
    } else if key == "cmd.version.set.field.version.help"@ {
        "Semantic version to write into dhara.config.toml and synchronized package metadata."
    } else if key == "cmd.version.bump.description"@ {
        "Bump the shared workspace version using semantic-version part semantics."
    } else if key == "cmd.version.bump.field.part.label"@ {
        "Part"
    } else if key == "cmd.version.bump.field.part.help"@ {
        "Which portion of the shared workspace version should be incremented."
    } else if key == "cmd.defs.pack.description"@ {
        "Copy the runtime filedefs.dat from the repository embed path to an output file."
    } else if key == "cmd.defs.pack.field.output.label"@ {
        "Output"
    } else if key == "cmd.defs.pack.field.output.help"@ {
        "Optional output file path."
    } else if key == "cmd.defs.build-trid-xml.description"@ {
        "Build a filedefs.dat package from TrID XML sources or archives."
    } else if key == "cmd.defs.build-trid-xml.field.input.label"@ {
        "Input"
    } else if key == "cmd.defs.build-trid-xml.field.input.help"@ {
        "Optional TrID XML input path or archive."
    } else if key == "cmd.defs.build-trid-xml.field.output.label"@ {
        "Output"
    } else if key == "cmd.defs.build-trid-xml.field.output.help"@ {
        "Optional output package path."
    } else if key == "cmd.defs.inspect.description"@ {
        "Inspect an encoded FlatBuffers package and summarize its metadata and counts."
    } else if key == "cmd.defs.inspect.field.input.label"@ {
        "Input"
    } else if key == "cmd.defs.inspect.field.input.help"@ {
        "Optional package path to inspect."
    } else if key == "cmd.defs.inspect-trid-xml.description"@ {
        "Preview TrID XML transformation results without writing an output package."
    } else if key == "cmd.defs.inspect-trid-xml.field.input.label"@ {
        "Input"
    } else if key == "cmd.defs.inspect-trid-xml.field.input.help"@ {
        "Optional TrID XML source path."
    } else if key == "cmd.defs.normalize.description"@ {
        "Normalize an existing FlatBuffers package into the canonical builder format."
    } else if key == "cmd.defs.normalize.field.input.label"@ {
        "Input"
    } else if key == "cmd.defs.normalize.field.input.help"@ {
        "Optional source package path."
    } else if key == "cmd.defs.normalize.field.output.label"@ {
        "Output"
    } else if key == "cmd.defs.normalize.field.output.help"@ {
        "Optional normalized output path."
    } else if key == "cmd.defs.verify.description"@ {
        "Compare two FlatBuffers packages for semantic equivalence."
    } else if key == "cmd.defs.verify.field.left.label"@ {
        "Left"
    } else if key == "cmd.defs.verify.field.left.help"@ {
        "Left-hand package path."
    } else if key == "cmd.defs.verify.field.right.label"@ {
        "Right"
    } else if key == "cmd.defs.verify.field.right.help"@ {
        "Right-hand package path."
    } else if key == "cmd.defs.sync-embedded.description"@ {
        "Refresh the runtime filedefs.dat package in dhara_storage/resources from the builder source."
    } else if key == "cmd.defs.sync-embedded.field.input.label"@ {
        "Input"
    } else if key == "cmd.defs.sync-embedded.field.input.help"@ {
        "Optional TrID XML archive or directory path."
    } else if key == "cmd.defs.sync-embedded.field.output.label"@ {
        "Output"
    } else if key == "cmd.defs.sync-embedded.field.output.help"@ {
        "Optional embedded package output path."
    } else if key == "cmd.defs.sync-embedded.field.check.label"@ {
        "Check only"
    } else if key == "cmd.defs.sync-embedded.field.check.help"@ {
        "Validate whether the embedded package is up to date without writing changes."
    } else if key == "cmd.verify.package.description"@ {
        "Pack and verify the Dhara.Storage NuGet package, including smoke-consumer validation."
    } else if key == "cmd.package.pack.description"@ {
        "Pack the Dhara.Storage NuGet package with staged native assets."
    } else if key == "cmd.package.field.configuration.label"@ {
        "Configuration"
    } else if key == "cmd.package.field.configuration.help"@ {
        "Build configuration used for verification and packing."
    } else if key == "cmd.package.field.version.label"@ {
        "Version override"
    } else if key == "cmd.package.field.version.help"@ {
        "Optional package version override. Leave empty to use dhara.config.toml."
    } else if key == "cmd.package.publish.description"@ {
        "Verify and optionally publish the Dhara.Storage NuGet package."
    } else if key == "cmd.package.publish.field.configuration.label"@ {
        "Configuration"
    } else if key == "cmd.package.publish.field.configuration.help"@ {
        "Build configuration used during package verification and packing."
    } else if key == "cmd.package.publish.field.version.label"@ {
        "Version override"
    } else if key == "cmd.package.publish.field.version.help"@ {
        "Optional package version override. Leave empty to use dhara.config.toml."
    } else if key == "cmd.package.publish.field.source.label"@ {
        "Source"
    } else if key == "cmd.package.publish.field.source.help"@ {
        "Optional NuGet source URL override."
    } else if key == "cmd.package.publish.field.mode.label"@ {
        "Mode"
    } else if key == "cmd.package.publish.field.mode.help"@ {
        "Choose whether to publish or perform a dry run only."
    } else if key == "cmd.build.run.description"@ {
        "Run the full local repository build: config sync, definitions, quality, native staging, and package verification."
    } else if key == "cmd.build.run.field.skip_config.label"@ {
        "Skip config"
    } else if key == "cmd.build.run.field.skip_config.help"@ {
        "Do not apply dhara.config.toml drift into manifests."
    } else if key == "cmd.build.run.field.skip_defs.label"@ {
        "Skip definitions"
    } else if key == "cmd.build.run.field.skip_defs.help"@ {
        "Do not refresh core/dhara_storage/resources/filedefs.dat."
    } else if key == "cmd.build.run.field.skip_quality.label"@ {
        "Skip quality"
    } else if key == "cmd.build.run.field.skip_quality.help"@ {
        "Do not run fmt, clippy, doc, and tests."
    } else if key == "cmd.build.run.field.skip_docs.label"@ {
        "Skip docs"
    } else if key == "cmd.build.run.field.skip_docs.help"@ {
        "Skip cargo doc when quality checks run."
    } else if key == "cmd.build.run.field.skip_dotnet.label"@ {
        "Skip .NET tests"
    } else if key == "cmd.build.run.field.skip_dotnet.help"@ {
        "Skip dotnet test when quality checks run."
    } else if key == "cmd.build.run.field.skip_native.label"@ {
        "Skip native staging"
    } else if key == "cmd.build.run.field.skip_native.help"@ {
        "Do not build and stage dhara-sd for host runtimes."
    } else if key == "cmd.build.run.field.cross_native.label"@ {
        "Cross-native"
    } else if key == "cmd.build.run.field.cross_native.help"@ {
        "Also stage cross-native targets buildable on this host (for example win-arm64 on Windows x64). Requires MSVC ARM64 build tools when enabled on Windows."
    } else if key == "cmd.build.run.field.skip_verify.label"@ {
        "Skip verify"
    } else if key == "cmd.build.run.field.skip_verify.help"@ {
        "Do not pack and verify the NuGet package."
    } else if key == "cmd.build.run.field.configuration.label"@ {
        "Configuration"
    } else if key == "cmd.build.run.field.configuration.help"@ {
        "Build configuration used for native staging and package verification."
    } else if key == "cmd.build.run.group.preset"@ {
        "Preset"
    } else if key == "cmd.build.run.group.workflow"@ {
        "Workflow steps"
    } else if key == "cmd.build.run.group.advanced"@ {
        "Advanced"
    } else if key == "cmd.build.run.field.preset.label"@ {
        "Build preset"
    } else if key == "cmd.build.run.field.preset.help"@ {
        "Quick TUI presets for local integration testing or production parity."
    } else if key == "cmd.build.run.field.step_config.label"@ {
        "Apply configuration sync"
    } else if key == "cmd.build.run.field.step_config.help"@ {
        "Synchronize dhara.config.toml into Cargo and NuGet manifests."
    } else if key == "cmd.build.run.field.step_defs.label"@ {
        "Sync file definitions"
    } else if key == "cmd.build.run.field.step_defs.help"@ {
        "Refresh embedded filedefs.dat when TrID input is available."
    } else if key == "cmd.build.run.field.step_quality.label"@ {
        "Run quality checks"
    } else if key == "cmd.build.run.field.step_quality.help"@ {
        "Run fmt, clippy, doc, Rust tests, and dotnet test."
    } else if key == "cmd.build.run.field.step_docs.label"@ {
        "  cargo doc"
    } else if key == "cmd.build.run.field.step_docs.help"@ {
        "Include cargo doc in quality checks."
    } else if key == "cmd.build.run.field.step_dotnet.label"@ {
        "  dotnet test"
    } else if key == "cmd.build.run.field.step_dotnet.help"@ {
        "Include dotnet test in quality checks."
    } else if key == "cmd.build.run.field.step_native.label"@ {
        "Stage native sidecar"
    } else if key == "cmd.build.run.field.step_native.help"@ {
        "Build and stage dhara-sd for selected host runtimes."
    } else if key == "cmd.build.run.field.step_verify.label"@ {
        "Verify NuGet package"
    } else if key == "cmd.build.run.field.step_verify.help"@ {
        "Pack and run consumer smoke checks (Release configuration required)."
    } else if key == "cmd.build.run.field.native_scope.label"@ {
        "Native scope"
    } else if key == "cmd.build.run.field.native_scope.help"@ {
        "Host-only staging for local work, or include cross-native targets."
    } else if key == "cmd.release.run.group.preset"@ {
        "Preset"
    } else if key == "cmd.release.run.group.steps"@ {
        "Release steps"
    } else if key == "cmd.release.run.group.advanced"@ {
        "Advanced"
    } else if key == "cmd.release.run.field.preset.label"@ {
        "Release preset"
    } else if key == "cmd.release.run.field.preset.help"@ {
        "Dry-run validation or full publish workflow."
    } else if key == "cmd.release.run.field.step_cargo.label"@ {
        "Publish Cargo crates"
    } else if key == "cmd.release.run.field.step_cargo.help"@ {
        "Run the Cargo release phase."
    } else if key == "cmd.release.run.field.step_nuget.label"@ {
        "Publish NuGet package"
    } else if key == "cmd.release.run.field.step_nuget.help"@ {
        "Run NuGet pack and publish."
    } else if key == "group.paths"@ {
        "Paths"
    } else if key == "group.package"@ {
        "Package"
    } else if key == "group.mode"@ {
        "Mode"
    } else if key == "group.general"@ {
        "General"
    } else if key == "cmd.release.run.description"@ {
        "Run the Cargo-first release workflow, with optional NuGet publishing."
    } else if key == "cmd.release.run.field.configuration.label"@ {
        "Configuration"
    } else if key == "cmd.release.run.field.configuration.help"@ {
        "Build configuration used when NuGet packaging is enabled."
    } else if key == "cmd.release.run.field.source.label"@ {
        "Source"
    } else if key == "cmd.release.run.field.source.help"@ {
        "Optional NuGet source URL override."
    } else if key == "cmd.release.run.field.dry_run.label"@ {
        "Dry run"
    } else if key == "cmd.release.run.field.dry_run.help"@ {
        "Run Cargo and NuGet release validation without publishing."
    } else if key == "cmd.release.run.field.skip_cargo.label"@ {
        "Skip Cargo"
    } else if key == "cmd.release.run.field.skip_cargo.help"@ {
        "Skip the Cargo release phase when crates were already published."
    } else if key == "cmd.release.run.field.skip_nuget.label"@ {
        "Skip NuGet"
    } else if key == "cmd.release.run.field.skip_nuget.help"@ {
        "Publish or dry-run only the Cargo release."
    } else {
        "<missing>"
    }
}

/// Keyed product UI copy: the text stored under `key` (see `spec_ui_string`).
#[verifier::rlimit(50)]
pub fn s(key: &str) -> (r: &'static str)
    ensures
        r == spec_ui_string(key@),
{
    if str_eq(key, "cmd.config.show.description") {
        return "Inspect the effective Dhara repository configuration and resolved environment.";
    }
    if str_eq(key, "cmd.config.env.init.description") {
        return "Create .env.local from .env.example when the local file is missing.";
    }
    if str_eq(key, "cmd.version.set.description") {
        return "Set the shared workspace version used by both Cargo and NuGet metadata.";
    }
    if str_eq(key, "cmd.version.set.field.version.label") {
        return "Version";
    }
    if str_eq(key, "cmd.version.set.field.version.help") {
        return "Semantic version to write into dhara.config.toml and synchronized package metadata.";
    }
    if str_eq(key, "cmd.version.bump.description") {
        return "Bump the shared workspace version using semantic-version part semantics.";
    }
    if str_eq(key, "cmd.version.bump.field.part.label") {
        return "Part";
    }
    if str_eq(key, "cmd.version.bump.field.part.help") {
        return "Which portion of the shared workspace version should be incremented.";
    }
    if str_eq(key, "cmd.defs.pack.description") {
        return "Copy the runtime filedefs.dat from the repository embed path to an output file.";
    }
    if str_eq(key, "cmd.defs.pack.field.output.label") {
        return "Output";
    }
    if str_eq(key, "cmd.defs.pack.field.output.help") {
        return "Optional output file path.";
    }
    if str_eq(key, "cmd.defs.build-trid-xml.description") {
        return "Build a filedefs.dat package from TrID XML sources or archives.";
    }
    if str_eq(key, "cmd.defs.build-trid-xml.field.input.label") {
        return "Input";
    }
    if str_eq(key, "cmd.defs.build-trid-xml.field.input.help") {
        return "Optional TrID XML input path or archive.";
    }
    if str_eq(key, "cmd.defs.build-trid-xml.field.output.label") {
        return "Output";
    }
    if str_eq(key, "cmd.defs.build-trid-xml.field.output.help") {
        return "Optional output package path.";
    }
    if str_eq(key, "cmd.defs.inspect.description") {
        return "Inspect an encoded FlatBuffers package and summarize its metadata and counts.";
    }
    if str_eq(key, "cmd.defs.inspect.field.input.label") {
        return "Input";
    }
    if str_eq(key, "cmd.defs.inspect.field.input.help") {
        return "Optional package path to inspect.";
    }
    if str_eq(key, "cmd.defs.inspect-trid-xml.description") {
        return "Preview TrID XML transformation results without writing an output package.";
    }
    if str_eq(key, "cmd.defs.inspect-trid-xml.field.input.label") {
        return "Input";
    }
    if str_eq(key, "cmd.defs.inspect-trid-xml.field.input.help") {
        return "Optional TrID XML source path.";
    }
    if str_eq(key, "cmd.defs.normalize.description") {
        return "Normalize an existing FlatBuffers package into the canonical builder format.";
    }
    if str_eq(key, "cmd.defs.normalize.field.input.label") {
        return "Input";
    }
    if str_eq(key, "cmd.defs.normalize.field.input.help") {
        return "Optional source package path.";
    }
    if str_eq(key, "cmd.defs.normalize.field.output.label") {
        return "Output";
    }
    if str_eq(key, "cmd.defs.normalize.field.output.help") {
        return "Optional normalized output path.";
    }
    if str_eq(key, "cmd.defs.verify.description") {
        return "Compare two FlatBuffers packages for semantic equivalence.";
    }
    if str_eq(key, "cmd.defs.verify.field.left.label") {
        return "Left";
    }
    if str_eq(key, "cmd.defs.verify.field.left.help") {
        return "Left-hand package path.";
    }
    if str_eq(key, "cmd.defs.verify.field.right.label") {
        return "Right";
    }
    if str_eq(key, "cmd.defs.verify.field.right.help") {
        return "Right-hand package path.";
    }
    if str_eq(key, "cmd.defs.sync-embedded.description") {
        return "Refresh the runtime filedefs.dat package in dhara_storage/resources from the builder source.";
    }
    if str_eq(key, "cmd.defs.sync-embedded.field.input.label") {
        return "Input";
    }
    if str_eq(key, "cmd.defs.sync-embedded.field.input.help") {
        return "Optional TrID XML archive or directory path.";
    }
    if str_eq(key, "cmd.defs.sync-embedded.field.output.label") {
        return "Output";
    }
    if str_eq(key, "cmd.defs.sync-embedded.field.output.help") {
        return "Optional embedded package output path.";
    }
    if str_eq(key, "cmd.defs.sync-embedded.field.check.label") {
        return "Check only";
    }
    if str_eq(key, "cmd.defs.sync-embedded.field.check.help") {
        return "Validate whether the embedded package is up to date without writing changes.";
    }
    if str_eq(key, "cmd.verify.package.description") {
        return "Pack and verify the Dhara.Storage NuGet package, including smoke-consumer validation.";
    }
    if str_eq(key, "cmd.package.pack.description") {
        return "Pack the Dhara.Storage NuGet package with staged native assets.";
    }
    if str_eq(key, "cmd.package.field.configuration.label") {
        return "Configuration";
    }
    if str_eq(key, "cmd.package.field.configuration.help") {
        return "Build configuration used for verification and packing.";
    }
    if str_eq(key, "cmd.package.field.version.label") {
        return "Version override";
    }
    if str_eq(key, "cmd.package.field.version.help") {
        return "Optional package version override. Leave empty to use dhara.config.toml.";
    }
    if str_eq(key, "cmd.package.publish.description") {
        return "Verify and optionally publish the Dhara.Storage NuGet package.";
    }
    if str_eq(key, "cmd.package.publish.field.configuration.label") {
        return "Configuration";
    }
    if str_eq(key, "cmd.package.publish.field.configuration.help") {
        return "Build configuration used during package verification and packing.";
    }
    if str_eq(key, "cmd.package.publish.field.version.label") {
        return "Version override";
    }
    if str_eq(key, "cmd.package.publish.field.version.help") {
        return "Optional package version override. Leave empty to use dhara.config.toml.";
    }
    if str_eq(key, "cmd.package.publish.field.source.label") {
        return "Source";
    }
    if str_eq(key, "cmd.package.publish.field.source.help") {
        return "Optional NuGet source URL override.";
    }
    if str_eq(key, "cmd.package.publish.field.mode.label") {
        return "Mode";
    }
    if str_eq(key, "cmd.package.publish.field.mode.help") {
        return "Choose whether to publish or perform a dry run only.";
    }
    if str_eq(key, "cmd.build.run.description") {
        return "Run the full local repository build: config sync, definitions, quality, native staging, and package verification.";
    }
    if str_eq(key, "cmd.build.run.field.skip_config.label") {
        return "Skip config";
    }
    if str_eq(key, "cmd.build.run.field.skip_config.help") {
        return "Do not apply dhara.config.toml drift into manifests.";
    }
    if str_eq(key, "cmd.build.run.field.skip_defs.label") {
        return "Skip definitions";
    }
    if str_eq(key, "cmd.build.run.field.skip_defs.help") {
        return "Do not refresh core/dhara_storage/resources/filedefs.dat.";
    }
    if str_eq(key, "cmd.build.run.field.skip_quality.label") {
        return "Skip quality";
    }
    if str_eq(key, "cmd.build.run.field.skip_quality.help") {
        return "Do not run fmt, clippy, doc, and tests.";
    }
    if str_eq(key, "cmd.build.run.field.skip_docs.label") {
        return "Skip docs";
    }
    if str_eq(key, "cmd.build.run.field.skip_docs.help") {
        return "Skip cargo doc when quality checks run.";
    }
    if str_eq(key, "cmd.build.run.field.skip_dotnet.label") {
        return "Skip .NET tests";
    }
    if str_eq(key, "cmd.build.run.field.skip_dotnet.help") {
        return "Skip dotnet test when quality checks run.";
    }
    if str_eq(key, "cmd.build.run.field.skip_native.label") {
        return "Skip native staging";
    }
    if str_eq(key, "cmd.build.run.field.skip_native.help") {
        return "Do not build and stage dhara-sd for host runtimes.";
    }
    if str_eq(key, "cmd.build.run.field.cross_native.label") {
        return "Cross-native";
    }
    if str_eq(key, "cmd.build.run.field.cross_native.help") {
        return "Also stage cross-native targets buildable on this host (for example win-arm64 on Windows x64). Requires MSVC ARM64 build tools when enabled on Windows.";
    }
    if str_eq(key, "cmd.build.run.field.skip_verify.label") {
        return "Skip verify";
    }
    if str_eq(key, "cmd.build.run.field.skip_verify.help") {
        return "Do not pack and verify the NuGet package.";
    }
    if str_eq(key, "cmd.build.run.field.configuration.label") {
        return "Configuration";
    }
    if str_eq(key, "cmd.build.run.field.configuration.help") {
        return "Build configuration used for native staging and package verification.";
    }
    if str_eq(key, "cmd.build.run.group.preset") {
        return "Preset";
    }
    if str_eq(key, "cmd.build.run.group.workflow") {
        return "Workflow steps";
    }
    if str_eq(key, "cmd.build.run.group.advanced") {
        return "Advanced";
    }
    if str_eq(key, "cmd.build.run.field.preset.label") {
        return "Build preset";
    }
    if str_eq(key, "cmd.build.run.field.preset.help") {
        return "Quick TUI presets for local integration testing or production parity.";
    }
    if str_eq(key, "cmd.build.run.field.step_config.label") {
        return "Apply configuration sync";
    }
    if str_eq(key, "cmd.build.run.field.step_config.help") {
        return "Synchronize dhara.config.toml into Cargo and NuGet manifests.";
    }
    if str_eq(key, "cmd.build.run.field.step_defs.label") {
        return "Sync file definitions";
    }
    if str_eq(key, "cmd.build.run.field.step_defs.help") {
        return "Refresh embedded filedefs.dat when TrID input is available.";
    }
    if str_eq(key, "cmd.build.run.field.step_quality.label") {
        return "Run quality checks";
    }
    if str_eq(key, "cmd.build.run.field.step_quality.help") {
        return "Run fmt, clippy, doc, Rust tests, and dotnet test.";
    }
    if str_eq(key, "cmd.build.run.field.step_docs.label") {
        return "  cargo doc";
    }
    if str_eq(key, "cmd.build.run.field.step_docs.help") {
        return "Include cargo doc in quality checks.";
    }
    if str_eq(key, "cmd.build.run.field.step_dotnet.label") {
        return "  dotnet test";
    }
    if str_eq(key, "cmd.build.run.field.step_dotnet.help") {
        return "Include dotnet test in quality checks.";
    }
    if str_eq(key, "cmd.build.run.field.step_native.label") {
        return "Stage native sidecar";
    }
    if str_eq(key, "cmd.build.run.field.step_native.help") {
        return "Build and stage dhara-sd for selected host runtimes.";
    }
    if str_eq(key, "cmd.build.run.field.step_verify.label") {
        return "Verify NuGet package";
    }
    if str_eq(key, "cmd.build.run.field.step_verify.help") {
        return "Pack and run consumer smoke checks (Release configuration required).";
    }
    if str_eq(key, "cmd.build.run.field.native_scope.label") {
        return "Native scope";
    }
    if str_eq(key, "cmd.build.run.field.native_scope.help") {
        return "Host-only staging for local work, or include cross-native targets.";
    }
    if str_eq(key, "cmd.release.run.group.preset") {
        return "Preset";
    }
    if str_eq(key, "cmd.release.run.group.steps") {
        return "Release steps";
    }
    if str_eq(key, "cmd.release.run.group.advanced") {
        return "Advanced";
    }
    if str_eq(key, "cmd.release.run.field.preset.label") {
        return "Release preset";
    }
    if str_eq(key, "cmd.release.run.field.preset.help") {
        return "Dry-run validation or full publish workflow.";
    }
    if str_eq(key, "cmd.release.run.field.step_cargo.label") {
        return "Publish Cargo crates";
    }
    if str_eq(key, "cmd.release.run.field.step_cargo.help") {
        return "Run the Cargo release phase.";
    }
    if str_eq(key, "cmd.release.run.field.step_nuget.label") {
        return "Publish NuGet package";
    }
    if str_eq(key, "cmd.release.run.field.step_nuget.help") {
        return "Run NuGet pack and publish.";
    }
    if str_eq(key, "group.paths") {
        return "Paths";
    }
    if str_eq(key, "group.package") {
        return "Package";
    }
    if str_eq(key, "group.mode") {
        return "Mode";
    }
    if str_eq(key, "group.general") {
        return "General";
    }
    if str_eq(key, "cmd.release.run.description") {
        return "Run the Cargo-first release workflow, with optional NuGet publishing.";
    }
    if str_eq(key, "cmd.release.run.field.configuration.label") {
        return "Configuration";
    }
    if str_eq(key, "cmd.release.run.field.configuration.help") {
        return "Build configuration used when NuGet packaging is enabled.";
    }
    if str_eq(key, "cmd.release.run.field.source.label") {
        return "Source";
    }
    if str_eq(key, "cmd.release.run.field.source.help") {
        return "Optional NuGet source URL override.";
    }
    if str_eq(key, "cmd.release.run.field.dry_run.label") {
        return "Dry run";
    }
    if str_eq(key, "cmd.release.run.field.dry_run.help") {
        return "Run Cargo and NuGet release validation without publishing.";
    }
    if str_eq(key, "cmd.release.run.field.skip_cargo.label") {
        return "Skip Cargo";
    }
    if str_eq(key, "cmd.release.run.field.skip_cargo.help") {
        return "Skip the Cargo release phase when crates were already published.";
    }
    if str_eq(key, "cmd.release.run.field.skip_nuget.label") {
        return "Skip NuGet";
    }
    if str_eq(key, "cmd.release.run.field.skip_nuget.help") {
        return "Publish or dry-run only the Cargo release.";
    }
    "<missing>"
}

} // verus!
