# drot

The Dhara Repository Orchestration Tool: the operator tool of the Dhara Storage repository.
It keeps the repository's manifests in line with `dhara.config.toml`, stages the native
daemon libraries, and packs, verifies and publishes the NuGet packages. Every command is
described once, for the command line and for the option forms of an interactive TUI, and a
form serializes to the same argument words the command line accepts. The library holds the
TUI's session decisions and view model; the binary built here is the command line only, with
no terminal front end.

## Layout

- `src/` is the library, written in Verus: its functions carry contracts that Verus proves,
  apart from the trusted wrappers named below.
  - `command`, `forms`, `args`, `context`: the command catalogue, option forms and their
    argument words, the root flags, what handlers receive and report.
  - `repo_config`, `cargo_manifest`: the configuration file, the drift it detects in the
    workspace `Cargo.toml` and the package projects, and the edits that remove it.
  - `interactive`, `tui`: the TUI session's decisions and its view model (panels, option
    widgets, the navigation tree, the progress capsule, text fitting and wrapping).
  - `storage`: the Dhara Storage extension: its commands, presets, runtime identifiers and the
    decisions of its NuGet workflow.
  - `msvc`, `bootstrap`, `product`, `base_commands`, `text`: the Windows developer environment
    rules, start-up wiring, product hooks, the kernel's command stubs and string helpers.
- `app/` is the Direct CLI binary: argument handling, files, processes, and the serde copies
  of the configuration types.
- `tests/` exercises the library on concrete values.

The outside crates the library calls (`toml_edit`, `xmltree`, `semver`, `unicode-width`), and
a few `std` operations that the verifier's library does not specify, are reached through small
trusted wrappers whose contracts name or state their results.
