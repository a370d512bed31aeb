//! The MSVC / Visual Studio Developer environment: the rules that decide whether the tool runs
//! inside a DevShell, whether it re-launches itself there, where `vswhere` lives and what it
//! is asked, how its answer is read, and the scripts that enter the environment. Reading the
//! environment, looking at files and spawning PowerShell, `vswhere` and `cmd.exe` is the host's
//! part; it hands the results in as plain values.
use vstd::prelude::*;

use crate::command::string_views;
use crate::text::{chars_of, concat, concat3, push_char, str_eq, string_from_range, trim, trim_seq};

verus! {

/// Set on child processes re-launched under the Visual Studio Developer environment.
pub const INSIDE_MSVC_ENV_VAR: &'static str = "DHARA_TOOL_INSIDE_MSVC";

/// True when the process runs inside a VS Developer environment: one of `DHARA_TOOL_INSIDE_MSVC`,
/// `VSCMD_VER` and `VCINSTALLDIR` is set (whether each is set is what the host reads).
pub fn is_vs_dev_environment(inside_msvc_set: bool, vscmd_ver_set: bool, vcinstalldir_set: bool) -> (r: bool)
    ensures
        r == (inside_msvc_set || vscmd_ver_set || vcinstalldir_set),
{
    inside_msvc_set || vscmd_ver_set || vcinstalldir_set
}

/// `rel` under `root` as `Path::join` writes it on Windows: `rel` alone under an empty root, no
/// separator added after a root that ends in one.
pub open spec fn win_join(root: Seq<char>, rel: Seq<char>) -> Seq<char> {
    if root.len() == 0 {
        rel
    } else if root.last() == '\\' || root.last() == '/' {
        root + rel
    } else {
        root + "\\"@ + rel
    }
}

/// `rel` under `root` (see `win_join`).
pub fn win_join_path(root: &str, rel: &str) -> (r: String)
    ensures
        r@ == win_join(root@, rel@),
{
    let v = chars_of(root);
    if v.len() == 0 {
        return rel.to_owned();
    }
    let last = v[v.len() - 1];
    if last == '\\' || last == '/' {
        concat(root, rel)
    } else {
        concat3(root, "\\", rel)
    }
}

/// Where `vswhere.exe` is, from the `ProgramFiles(x86)` directory (`None` when the variable is
/// unset): `<dir>\Microsoft Visual Studio\Installer\vswhere.exe`; discovery is Windows-only.
pub open spec fn spec_vswhere_exe_path(host_os: Seq<char>, program_files_x86: Option<Seq<char>>) -> Result<
    Seq<char>,
    Seq<char>,
> {
    if host_os != "windows"@ {
        Err("Visual Studio discovery is only supported on Windows"@)
    } else {
        match program_files_x86 {
            None => Err("ProgramFiles(x86) is not set; MSVC tooling requires Windows"@),
            Some(dir) => Ok(
                win_join(win_join(win_join(dir, "Microsoft Visual Studio"@), "Installer"@), "vswhere.exe"@),
            ),
        }
    }
}

/// Where `vswhere.exe` is (see `spec_vswhere_exe_path`).
pub fn vswhere_exe_path(host_os: &str, program_files_x86: Option<String>) -> (r: Result<String, String>)
    ensures
        match r {
            Ok(p) => spec_vswhere_exe_path(host_os@, crate::storage::nuget::opt_text(program_files_x86)) == Ok::<
                Seq<char>,
                Seq<char>,
            >(p@),
            Err(e) => spec_vswhere_exe_path(host_os@, crate::storage::nuget::opt_text(program_files_x86)) == Err::<
                Seq<char>,
                Seq<char>,
            >(e@),
        },
{
    if !str_eq(host_os, "windows") {
        return Err("Visual Studio discovery is only supported on Windows".to_owned());
    }
    match program_files_x86 {
        None => Err("ProgramFiles(x86) is not set; MSVC tooling requires Windows".to_owned()),
        Some(dir) => {
            let a = win_join_path(dir.as_str(), "Microsoft Visual Studio");
            let b = win_join_path(a.as_str(), "Installer");
            Ok(win_join_path(b.as_str(), "vswhere.exe"))
        },
    }
}

/// What `vswhere` is asked: the latest installation of any product with the MSVC x86/x64
/// tools, printing only its installation path.
pub fn vswhere_args() -> (r: Vec<&'static str>)
    ensures
        r@ == seq![
            "-latest",
            "-products",
            "*",
            "-requires",
            "Microsoft.VisualStudio.Component.VC.Tools.x86.x64",
            "-property",
            "installationPath",
        ],
{
    vec![
        "-latest",
        "-products",
        "*",
        "-requires",
        "Microsoft.VisualStudio.Component.VC.Tools.x86.x64",
        "-property",
        "installationPath",
    ]
}

/// Whether the tool re-launches itself inside the DevShell for `args`: only on Windows, only
/// outside a VS Developer environment (`in_dev_environment`, see `is_vs_dev_environment`), and
/// not for a command line the bootstrap skips (see `spec_skip_devshell`).
pub fn devshell_reexec_needed(host_os: &str, in_dev_environment: bool, args: &[String]) -> (r: bool)
    ensures
        r == (host_os@ == "windows"@ && !in_dev_environment && !spec_skip_devshell(string_views(args@))),
{
    if !str_eq(host_os, "windows") || in_dev_environment {
        return false;
    }
    !should_skip_devshell_bootstrap(args)
}

/// The batch file that runs the `cmd.exe` command line `command` inside the MSVC environment of
/// the installation `vs_install`: it calls `vcvarsall.bat x64_arm64`, stops when that fails,
/// marks the environment and runs the command, exiting with its status.
pub open spec fn spec_msvc_cmd_file(command: Seq<char>, vs_install: Seq<char>) -> Seq<char> {
    "@echo off\r\ncall \""@ + win_join(vs_install, "VC\\Auxiliary\\Build\\vcvarsall.bat"@)
        + "\" x64_arm64\r\nif errorlevel 1 exit /b 1\r\nset DHARA_TOOL_INSIDE_MSVC=1\r\n"@ + command
        + "\r\nexit /b %errorlevel%\r\n"@
}

/// The batch file of an MSVC command (see `spec_msvc_cmd_file`).
pub fn msvc_cmd_file(command: &str, vs_install: &str) -> (r: String)
    ensures
        r@ == spec_msvc_cmd_file(command@, vs_install@),
{
    let vcvars = win_join_path(vs_install, "VC\\Auxiliary\\Build\\vcvarsall.bat");
    let mut file = concat("@echo off\r\ncall \"", vcvars.as_str());
    file.append("\" x64_arm64\r\nif errorlevel 1 exit /b 1\r\nset DHARA_TOOL_INSIDE_MSVC=1\r\n");
    file.append(command);
    file.append("\r\nexit /b %errorlevel%\r\n");
    file
}

/// What running `command` inside the MSVC environment writes to its batch file: the batch file
/// for the installation `vs_install` (which the host locates on Windows, see
/// `vswhere_exe_path`); outside Windows there is no such environment.
pub fn run_with_msvc_env(command: &str, host_os: &str, vs_install: &str) -> (r: Result<String, String>)
    ensures
        host_os@ != "windows"@ ==> (r matches Err(e) && e@ == "MSVC environment is only supported on Windows"@),
        host_os@ == "windows"@ ==> (r matches Ok(f) && f@ == spec_msvc_cmd_file(command@, vs_install@)),
{
    if !str_eq(host_os, "windows") {
        return Err("MSVC environment is only supported on Windows".to_owned());
    }
    Ok(msvc_cmd_file(command, vs_install))
}

/// The commands that need no MSVC tooling, so the Windows bootstrap skips them.
pub open spec fn devshell_skip_commands() -> Seq<Seq<Seq<char>>> {
    seq![
        seq!["config"@, "show"@],
        seq!["config"@, "env"@, "init"@],
        seq!["version"@, "set"@],
        seq!["version"@, "bump"@],
    ]
}

/// True when the DevShell bootstrap is skipped for `args`: a help or version flag anywhere, or
/// a command line that starts with one of the commands needing no MSVC tooling; never for an
/// empty command line.
pub open spec fn spec_skip_devshell(args: Seq<Seq<char>>) -> bool {
    args.len() > 0 && ((exists|i: int|
        0 <= i < args.len() && (#[trigger] args[i] == "--help"@ || args[i] == "-h"@ || args[i] == "--version"@
            || args[i] == "-V"@)) || (exists|k: int|
        0 <= k < devshell_skip_commands().len() && args.len() >= devshell_skip_commands()[k].len()
            && #[trigger] args.take(devshell_skip_commands()[k].len() as int) == devshell_skip_commands()[k]))
}

/// `s` with every `c` replaced by `with` (`str::replace` with a character pattern).
pub open spec fn replace_char(s: Seq<char>, c: char, with: Seq<char>) -> Seq<char>
    decreases s.len(),
{
    if s.len() == 0 {
        Seq::empty()
    } else {
        replace_char(s.drop_last(), c, with) + if s.last() == c {
            with
        } else {
            seq![s.last()]
        }
    }
}

/// `s` quoted for a single-quoted PowerShell string: each `'` doubled.
pub open spec fn ps_quote(s: Seq<char>) -> Seq<char> {
    replace_char(s, '\'', "''"@)
}

/// The PowerShell prologue that enters the DevShell of the installation `vs` and marks the
/// environment.
pub open spec fn devshell_prologue(vs: Seq<char>) -> Seq<char> {
    "$vsPath = '"@ + vs
        + "'; Import-Module (Join-Path $vsPath 'Common7\\Tools\\Microsoft.VisualStudio.DevShell.dll'); Enter-VsDevShell -VsInstallPath $vsPath -SkipAutomaticLocation; $env:"@
        + "DHARA_TOOL_INSIDE_MSVC"@ + "='1'; "@
}

/// The words of a relaunch: `& 'exe'` and each argument single-quoted after a space.
pub open spec fn launch_words(exe: Seq<char>, args: Seq<Seq<char>>) -> Seq<char>
    decreases args.len(),
{
    if args.len() == 0 {
        "& '"@ + ps_quote(exe) + "'"@
    } else {
        launch_words(exe, args.drop_last()) + " '"@ + ps_quote(args.last()) + "'"@
    }
}

/// What `vswhere` printed, read as an installation path: trimmed, surrounding double quotes
/// removed; `None` when nothing is left.
pub open spec fn spec_vswhere_path(out: Seq<char>) -> Option<Seq<char>> {
    let t = trim_seq(out);
    let p = strip_quotes(t);
    if p.len() == 0 {
        None
    } else {
        Some(p)
    }
}

/// `s` without its leading and trailing `"` characters (`str::trim_matches('"')`).
pub open spec fn strip_quotes(s: Seq<char>) -> Seq<char> {
    s.subrange(leading_quotes(s), s.len() - trailing_quotes(s.skip(leading_quotes(s))))
}

/// How many `"` open `s`.
pub open spec fn leading_quotes(s: Seq<char>) -> int
    decreases s.len(),
{
    if s.len() > 0 && s[0] == '"' {
        1 + leading_quotes(s.drop_first())
    } else {
        0
    }
}

/// How many `"` close `s`.
pub open spec fn trailing_quotes(s: Seq<char>) -> int
    decreases s.len(),
{
    if s.len() > 0 && s.last() == '"' {
        1 + trailing_quotes(s.drop_last())
    } else {
        0
    }
}

/// True when the DevShell bootstrap is skipped for `args` (see `spec_skip_devshell`).
pub fn should_skip_devshell_bootstrap(args: &[String]) -> (r: bool)
    ensures
        r == spec_skip_devshell(string_views(args@)),
{
    let ghost a = string_views(args@);
    if args.len() == 0 {
        return false;
    }
    let mut i: usize = 0;
    while i < args.len()
        invariant
            i <= args@.len(),
            a == string_views(args@),
            forall|j: int|
                0 <= j < i ==> !(#[trigger] a[j] == "--help"@ || a[j] == "-h"@ || a[j] == "--version"@ || a[j]
                    == "-V"@),
        decreases args.len() - i,
    {
        let arg = args[i].as_str();
        assert(a[i as int] == arg@);
        if str_eq(arg, "--help") || str_eq(arg, "-h") || str_eq(arg, "--version") || str_eq(arg, "-V") {
            return true;
        }
        i += 1;
    }
    let p0 = starts_with_words(args, &["config", "show"]);
    let p1 = starts_with_words(args, &["config", "env", "init"]);
    let p2 = starts_with_words(args, &["version", "set"]);
    let p3 = starts_with_words(args, &["version", "bump"]);
    proof {
        let cmds = devshell_skip_commands();
        assert(crate::command::str_views(seq!["config", "show"]) =~= cmds[0]);
        assert(crate::command::str_views(seq!["config", "env", "init"]) =~= cmds[1]);
        assert(crate::command::str_views(seq!["version", "set"]) =~= cmds[2]);
        assert(crate::command::str_views(seq!["version", "bump"]) =~= cmds[3]);
        if p0 || p1 || p2 || p3 {
            if p0 {
                assert(a.take(cmds[0].len() as int) == cmds[0]);
            } else if p1 {
                assert(a.take(cmds[1].len() as int) == cmds[1]);
            } else if p2 {
                assert(a.take(cmds[2].len() as int) == cmds[2]);
            } else {
                assert(a.take(cmds[3].len() as int) == cmds[3]);
            }
        } else {
            assert forall|k: int| 0 <= k < cmds.len() && a.len() >= cmds[k].len() implies #[trigger] a.take(
                cmds[k].len() as int,
            ) != cmds[k] by {
                if k == 0 {
                } else if k == 1 {
                } else if k == 2 {
                } else {
                }
            }
        }
    }
    p0 || p1 || p2 || p3
}

/// True when the words of `args` start with the words of `prefix`.
fn starts_with_words(args: &[String], prefix: &[&str]) -> (r: bool)
    ensures
        r == (args@.len() >= prefix@.len() && string_views(args@).take(prefix@.len() as int)
            == crate::command::str_views(prefix@)),
{
    if args.len() < prefix.len() {
        return false;
    }
    let mut k: usize = 0;
    while k < prefix.len()
        invariant
            k <= prefix@.len() <= args@.len(),
            forall|m: int| 0 <= m < k ==> #[trigger] string_views(args@)[m] == crate::command::str_views(prefix@)[m],
        decreases prefix.len() - k,
    {
        if !str_eq(prefix[k], args[k].as_str()) {
            assert(string_views(args@).take(prefix@.len() as int)[k as int] != crate::command::str_views(prefix@)[k as int]);
            return false;
        }
        k += 1;
    }
    assert(string_views(args@).take(prefix@.len() as int) =~= crate::command::str_views(prefix@));
    true
}

/// `s` with every `c` replaced by `with`.
pub fn replace_char_with(s: &str, c: char, with: &str) -> (r: String)
    ensures
        r@ == replace_char(s@, c, with@),
{
    let v = chars_of(s);
    let mut r = String::new();
    let mut i: usize = 0;
    while i < v.len()
        invariant
            i <= v@.len(),
            v@ == s@,
            r@ == replace_char(v@.take(i as int), c, with@),
        decreases v.len() - i,
    {
        assert(v@.take(i + 1).drop_last() =~= v@.take(i as int));
        if v[i] == c {
            r.append(with);
        } else {
            push_char(&mut r, v[i]);
            assert(r@ =~= replace_char(v@.take(i as int), c, with@) + seq![v@[i as int]]);
        }
        i += 1;
    }
    assert(v@.take(v@.len() as int) =~= v@);
    r
}

/// The PowerShell script that relaunches `exe` with `args` inside the DevShell of the
/// installation `vs_install`.
pub fn devshell_launch_script(exe: &str, args: &[String], vs_install: &str) -> (r: String)
    ensures
        r@ == devshell_prologue(vs_install@) + launch_words(exe@, string_views(args@)),
{
    let mut launch = concat("& '", replace_char_with(exe, '\'', "''").as_str());
    launch.append("'");
    let mut i: usize = 0;
    while i < args.len()
        invariant
            i <= args@.len(),
            launch@ == launch_words(exe@, string_views(args@).take(i as int)),
        decreases args.len() - i,
    {
        proof {
            assert(string_views(args@).take(i + 1).drop_last() =~= string_views(args@).take(i as int));
            assert(string_views(args@)[i as int] == args@[i as int]@);
        }
        launch.append(" '");
        launch.append(replace_char_with(args[i].as_str(), '\'', "''").as_str());
        launch.append("'");
        i += 1;
    }
    assert(string_views(args@).take(args@.len() as int) =~= string_views(args@));
    let mut script = prologue(vs_install);
    script.append(launch.as_str());
    script
}

/// The script prefix that enters the DevShell of `vs`.
fn prologue(vs: &str) -> (r: String)
    ensures
        r@ == devshell_prologue(vs@),
{
    let mut script = concat("$vsPath = '", vs);
    script.append(
        "'; Import-Module (Join-Path $vsPath 'Common7\\Tools\\Microsoft.VisualStudio.DevShell.dll'); Enter-VsDevShell -VsInstallPath $vsPath -SkipAutomaticLocation; $env:",
    );
    script.append(INSIDE_MSVC_ENV_VAR);
    script.append("='1'; ");
    script
}

/// The installation path `vswhere` printed, or the error when it printed none.
pub fn vswhere_install_path(output: &str) -> (r: Result<String, String>)
    ensures
        match spec_vswhere_path(output@) {
            Some(p) => r matches Ok(s) && s@ == p,
            None => r matches Err(e) && e@ == "Visual Studio with MSVC build tools was not found"@,
        },
{
    let t = trim(output);
    let v = chars_of(t.as_str());
    let mut a: usize = 0;
    assert(v@.skip(0) =~= v@);
    while a < v.len() && v[a] == '"'
        invariant
            a <= v@.len(),
            v@ == trim_seq(output@),
            leading_quotes(v@) == a + leading_quotes(v@.skip(a as int)),
        decreases v.len() - a,
    {
        assert(v@.skip(a as int).drop_first() =~= v@.skip(a + 1));
        a += 1;
    }
    assert(v@.skip(a as int).len() > 0 ==> v@.skip(a as int)[0] == v@[a as int]);
    let ghost rest = v@.skip(a as int);
    let mut b: usize = v.len();
    assert(rest.subrange(0, (b - a) as int) =~= rest);
    while b > a && v[b - 1] == '"'
        invariant
            a <= b <= v@.len(),
            rest == v@.skip(a as int),
            trailing_quotes(rest) == (v@.len() - b) + trailing_quotes(rest.subrange(0, (b - a) as int)),
        decreases b,
    {
        assert(rest.subrange(0, (b - a) as int).drop_last() =~= rest.subrange(0, (b - 1 - a) as int));
        b -= 1;
    }
    assert(rest.subrange(0, (b - a) as int).len() > 0 ==> rest.subrange(0, (b - a) as int).last() == v@[b - 1]);
    if a == b {
        return Err("Visual Studio with MSVC build tools was not found".to_owned());
    }
    Ok(string_from_range(&v, a, b))
}

} // verus!
