//! The root flags shared by the Direct CLI and the interactive TUI.
use vstd::prelude::*;

use crate::command::{lemma_string_views_push, string_views};
use crate::text::{concat3, has_prefix, starts_with, str_eq, strip_all_prefix, strip_prefix_all};

verus! {

/// Shared root CLI flags for `drot` (Direct CLI and interactive TUI).
#[derive(Debug, Clone)]
pub struct RootArgs {
    pub repository: Option<String>,
    pub min: bool,
    pub trace: bool,
    pub workers: Option<usize>,
    pub package_dir: Option<String>,
    pub output_dir: Option<String>,
    pub logs_dir: Option<String>,
    pub show_help: bool,
    pub show_version: bool,
    pub yes: bool,
    /// Subcommand tokens; empty for TUI / interactive mode.
    pub command: Vec<String>,
}

/// How unknown tokens after global options are handled.
#[derive(Debug, Clone, Copy, PartialEq, Eq, Structural)]
pub enum ParseMode {
    /// Collect unknown tokens into `RootArgs::command`.
    Direct,
    /// Reject unknown tokens (TUI has no subcommands).
    Interactive,
}

/// The root flags with every text seen as characters.
pub struct RootArgsModel {
    pub repository: Option<Seq<char>>,
    pub min: bool,
    pub trace: bool,
    pub workers: Option<usize>,
    pub package_dir: Option<Seq<char>>,
    pub output_dir: Option<Seq<char>>,
    pub logs_dir: Option<Seq<char>>,
    pub show_help: bool,
    pub show_version: bool,
    pub yes: bool,
    pub command: Seq<Seq<char>>,
}

/// An optional owned text as characters.
pub open spec fn opt_view(o: Option<String>) -> Option<Seq<char>> {
    match o {
        Some(s) => Some(s@),
        None => None,
    }
}

impl View for RootArgs {
    type V = RootArgsModel;

    open spec fn view(&self) -> RootArgsModel {
        RootArgsModel {
            repository: opt_view(self.repository),
            min: self.min,
            trace: self.trace,
            workers: self.workers,
            package_dir: opt_view(self.package_dir),
            output_dir: opt_view(self.output_dir),
            logs_dir: opt_view(self.logs_dir),
            show_help: self.show_help,
            show_version: self.show_version,
            yes: self.yes,
            command: string_views(self.command@),
        }
    }
}

/// No flag given and no subcommand.
pub open spec fn default_root_args() -> RootArgsModel {
    RootArgsModel {
        repository: None,
        min: false,
        trace: false,
        workers: None,
        package_dir: None,
        output_dir: None,
        logs_dir: None,
        show_help: false,
        show_version: false,
        yes: false,
        command: Seq::empty(),
    }
}

/// True when every character of `d` is an ASCII digit.
pub open spec fn all_digits(d: Seq<char>) -> bool {
    forall|i: int| 0 <= i < d.len() ==> '0' <= #[trigger] d[i] <= '9'
}

/// The number the decimal digits `d` spell.
pub open spec fn digits_value(d: Seq<char>) -> nat
    decreases d.len(),
{
    if d.len() == 0 {
        0
    } else {
        digits_value(d.drop_last()) * 10 + ((d.last() as u32) - ('0' as u32)) as nat
    }
}

/// What `str::parse::<usize>` gives: an optional `+`, then one or more decimal digits whose value
/// fits in a `usize`.
pub open spec fn spec_parse_usize(s: Seq<char>) -> Option<usize> {
    let d = if s.len() > 0 && s[0] == '+' {
        s.skip(1)
    } else {
        s
    };
    if d.len() > 0 && all_digits(d) && digits_value(d) <= usize::MAX {
        Some(digits_value(d) as usize)
    } else {
        None
    }
}

/// The message for a value flag given last, with nothing after it.
pub open spec fn requires_value_message(option: Seq<char>) -> Seq<char> {
    option + " requires a value"@
}

/// The message for a worker count that does not parse.
pub open spec fn bad_workers_message(value: Seq<char>) -> Seq<char> {
    "'"@ + value + "' is not a valid worker count"@
}

/// The message for a subcommand word given to the interactive mode.
pub open spec fn unexpected_message(token: Seq<char>) -> Seq<char> {
    "unexpected argument '"@ + token
        + "' (interactive mode does not take subcommands; omit the subcommand for the TUI or pass a command for Direct CLI)"@
}

/// The workers setting from a value, or the error for it.
pub open spec fn workers_from(a: RootArgsModel, value: Seq<char>, used: int) -> Result<(RootArgsModel, int), Seq<char>> {
    match spec_parse_usize(value) {
        Some(n) => Ok((RootArgsModel { workers: Some(n), ..a }, used)),
        None => Err(bad_workers_message(value)),
    }
}

/// What the first token of `ts` (and, for a flag that takes a value, the second) does to `a`,
/// with how many tokens it uses.
pub open spec fn spec_step(ts: Seq<Seq<char>>, mode: ParseMode, a: RootArgsModel) -> Result<
    (RootArgsModel, int),
    Seq<char>,
> {
    let t = ts[0];
    if t == "-h"@ || t == "--help"@ {
        Ok((RootArgsModel { show_help: true, ..a }, 1))
    } else if t == "--version"@ {
        Ok((RootArgsModel { show_version: true, ..a }, 1))
    } else if t == "-m"@ || t == "--min"@ {
        Ok((RootArgsModel { min: true, ..a }, 1))
    } else if t == "-t"@ || t == "--trace"@ {
        Ok((RootArgsModel { trace: true, ..a }, 1))
    } else if t == "-y"@ || t == "--yes"@ {
        Ok((RootArgsModel { yes: true, ..a }, 1))
    } else if t == "-r"@ || t == "--repository"@ {
        if ts.len() < 2 {
            Err(requires_value_message("--repository"@))
        } else {
            Ok((RootArgsModel { repository: Some(ts[1]), ..a }, 2))
        }
    } else if t == "-w"@ || t == "--workers"@ {
        if ts.len() < 2 {
            Err(requires_value_message("--workers"@))
        } else {
            workers_from(a, ts[1], 2)
        }
    } else if t == "--package-dir"@ {
        if ts.len() < 2 {
            Err(requires_value_message("--package-dir"@))
        } else {
            Ok((RootArgsModel { package_dir: Some(ts[1]), ..a }, 2))
        }
    } else if t == "--output-dir"@ {
        if ts.len() < 2 {
            Err(requires_value_message("--output-dir"@))
        } else {
            Ok((RootArgsModel { output_dir: Some(ts[1]), ..a }, 2))
        }
    } else if t == "--logs-dir"@ {
        if ts.len() < 2 {
            Err(requires_value_message("--logs-dir"@))
        } else {
            Ok((RootArgsModel { logs_dir: Some(ts[1]), ..a }, 2))
        }
    } else if has_prefix(t, "--repository="@) {
        Ok((RootArgsModel { repository: Some(strip_all_prefix(t, "--repository="@)), ..a }, 1))
    } else if has_prefix(t, "-r="@) {
        Ok((RootArgsModel { repository: Some(strip_all_prefix(t, "-r="@)), ..a }, 1))
    } else if has_prefix(t, "--package-dir="@) {
        Ok((RootArgsModel { package_dir: Some(strip_all_prefix(t, "--package-dir="@)), ..a }, 1))
    } else if has_prefix(t, "--output-dir="@) {
        Ok((RootArgsModel { output_dir: Some(strip_all_prefix(t, "--output-dir="@)), ..a }, 1))
    } else if has_prefix(t, "--logs-dir="@) {
        Ok((RootArgsModel { logs_dir: Some(strip_all_prefix(t, "--logs-dir="@)), ..a }, 1))
    } else if has_prefix(t, "--workers="@) {
        workers_from(a, strip_all_prefix(t, "--workers="@), 1)
    } else {
        match mode {
            ParseMode::Direct => Ok((RootArgsModel { command: a.command.push(t), ..a }, 1)),
            ParseMode::Interactive => Err(unexpected_message(t)),
        }
    }
}

/// The flags the tokens `ts` leave in `a`, read from the front, or the first error.
pub open spec fn spec_parse_tokens(ts: Seq<Seq<char>>, mode: ParseMode, a: RootArgsModel) -> Result<
    RootArgsModel,
    Seq<char>,
>
    decreases ts.len(),
{
    if ts.len() == 0 {
        Ok(a)
    } else {
        match spec_step(ts, mode, a) {
            Err(e) => Err(e),
            Ok((b, n)) => if 1 <= n <= ts.len() {
                spec_parse_tokens(ts.skip(n), mode, b)
            } else {
                Ok(b)
            },
        }
    }
}

/// The flags a whole command line gives.
pub open spec fn spec_parse_root_args(ts: Seq<Seq<char>>, mode: ParseMode) -> Result<RootArgsModel, Seq<char>> {
    spec_parse_tokens(ts, mode, default_root_args())
}

/// A parse result as a model.
pub open spec fn parse_view(r: Result<RootArgs, String>) -> Result<RootArgsModel, Seq<char>> {
    match r {
        Ok(a) => Ok(a@),
        Err(e) => Err(e@),
    }
}

/// Where the repository of a run comes from before anything else is read.
#[derive(Debug, Clone, PartialEq, Eq)]
pub enum EarlyRepository {
    /// `-r` / `--repository` was given: resolve this path and remember it in the cache.
    ResolveAndPersist(String),
    /// No override: use the cached repository, if the cache holds a valid one.
    Cached,
}

/// Resolve repository from `-r` / `--repository` or a valid runtime cache entry: an explicit
/// path wins over the cache.
pub fn try_early_repository(cli_override: Option<String>) -> (r: EarlyRepository)
    ensures
        match cli_override {
            Some(p) => r == EarlyRepository::ResolveAndPersist(p),
            None => r == EarlyRepository::Cached,
        },
{
    match cli_override {
        Some(path) => EarlyRepository::ResolveAndPersist(path),
        None => EarlyRepository::Cached,
    }
}

/// `str::parse::<usize>`: an optional `+` and decimal digits, without overflow.
pub fn parse_usize(s: &str) -> (r: Option<usize>)
    ensures
        r == spec_parse_usize(s@),
{
    let v = crate::text::chars_of(s);
    let mut start: usize = 0;
    if v.len() > 0 && v[0] == '+' {
        start = 1;
    }
    let ghost d = if s@.len() > 0 && s@[0] == '+' {
        s@.skip(1)
    } else {
        s@
    };
    assert(d =~= v@.skip(start as int));
    if start >= v.len() {
        return None;
    }
    let mut acc: usize = 0;
    let mut i: usize = start;
    while i < v.len()
        invariant
            start <= i <= v@.len(),
            v@ == s@,
            d == (if s@.len() > 0 && s@[0] == '+' {
                s@.skip(1)
            } else {
                s@
            }),
            d =~= v@.skip(start as int),
            all_digits(v@.subrange(start as int, i as int)),
            acc == digits_value(v@.subrange(start as int, i as int)),
        decreases v.len() - i,
    {
        let c = v[i];
        assert(v@.subrange(start as int, i + 1).drop_last() =~= v@.subrange(start as int, i as int));
        if c < '0' || c > '9' {
            assert(d[i - start] == c);
            return None;
        }
        let digit = (c as u32) - ('0' as u32);
        let prod = acc.checked_mul(10);
        let next = match prod {
            Some(p) => p.checked_add(digit as usize),
            None => None,
        };
        match next {
            Some(n) => {
                acc = n;
            },
            None => {
                proof {
                    assert(d.subrange(0, i + 1 - start) =~= v@.subrange(start as int, i + 1));
                    if all_digits(d) {
                        lemma_digits_value_prefix_bound(d, (i + 1 - start) as int);
                    }
                }
                return None;
            },
        }
        i += 1;
    }
    assert(v@.subrange(start as int, v@.len() as int) =~= d);
    Some(acc)
}

/// A value of a prefix of a digit string is at most the value of the whole.
proof fn lemma_digits_value_prefix_bound(d: Seq<char>, k: int)
    requires
        0 <= k <= d.len(),
        all_digits(d),
    ensures
        digits_value(d.subrange(0, k)) <= digits_value(d),
    decreases d.len(),
{
    if k < d.len() {
        assert(d.drop_last() =~= d.subrange(0, d.len() - 1));
        assert(d.drop_last().subrange(0, k) =~= d.subrange(0, k));
        lemma_digits_value_prefix_bound(d.drop_last(), k);
    } else {
        assert(d.subrange(0, k) =~= d);
    }
}

/// The flags of the empty command line.
fn empty_root_args() -> (r: RootArgs)
    ensures
        r@ == default_root_args(),
{
    let r = RootArgs {
        repository: None,
        min: false,
        trace: false,
        workers: None,
        package_dir: None,
        output_dir: None,
        logs_dir: None,
        show_help: false,
        show_version: false,
        yes: false,
        command: Vec::new(),
    };
    assert(string_views(r.command@) =~= Seq::<Seq<char>>::empty());
    r
}

/// Sets the worker count from `value`, or gives the error for it.
fn set_workers(parsed: &mut RootArgs, value: &str, used: usize) -> (r: Result<usize, String>)
    ensures
        match r {
            Ok(n) => workers_from(old(parsed)@, value@, used as int) == Ok::<(RootArgsModel, int), Seq<char>>(
                (final(parsed)@, n as int),
            ),
            Err(e) => workers_from(old(parsed)@, value@, used as int) == Err::<(RootArgsModel, int), Seq<char>>(e@),
        },
{
    match parse_usize(value) {
        Some(n) => {
            parsed.workers = Some(n);
            Ok(used)
        },
        None => Err(concat3("'", value, "' is not a valid worker count")),
    }
}

/// The value after the flag at `index`, or the error naming `option`.
fn next_value(args: &Vec<String>, index: usize, option: &str) -> (r: Result<String, String>)
    requires
        index < args@.len(),
    ensures
        match r {
            Ok(v) => index + 1 < args@.len() && v@ == args@[index + 1]@,
            Err(e) => index + 1 >= args@.len() && e@ == requires_value_message(option@),
        },
{
    if args.len() - index > 1 {
        Ok(args[index + 1].clone())
    } else {
        Err(crate::text::concat(option, " requires a value"))
    }
}

/// Applies the token at `index` (and its value) to `parsed`; gives how many tokens it used.
fn parse_step(args: &Vec<String>, index: usize, mode: ParseMode, parsed: &mut RootArgs) -> (r: Result<usize, String>)
    requires
        index < args@.len(),
    ensures
        match r {
            Ok(n) => spec_step(string_views(args@).skip(index as int), mode, old(parsed)@) == Ok::<
                (RootArgsModel, int),
                Seq<char>,
            >((final(parsed)@, n as int)),
            Err(e) => spec_step(string_views(args@).skip(index as int), mode, old(parsed)@) == Err::<
                (RootArgsModel, int),
                Seq<char>,
            >(e@),
        },
{
    let ghost ts = string_views(args@).skip(index as int);
    let token = args[index].as_str();
    assert(ts[0] == token@);
    assert(ts.len() == args@.len() - index);
    assert(ts.len() >= 2 ==> ts[1] == args@[index + 1]@);
    if str_eq(token, "-h") || str_eq(token, "--help") {
        parsed.show_help = true;
        return Ok(1);
    }
    if str_eq(token, "--version") {
        parsed.show_version = true;
        return Ok(1);
    }
    if str_eq(token, "-m") || str_eq(token, "--min") {
        parsed.min = true;
        return Ok(1);
    }
    if str_eq(token, "-t") || str_eq(token, "--trace") {
        parsed.trace = true;
        return Ok(1);
    }
    if str_eq(token, "-y") || str_eq(token, "--yes") {
        parsed.yes = true;
        return Ok(1);
    }
    if str_eq(token, "-r") || str_eq(token, "--repository") {
        let value = next_value(args, index, "--repository")?;
        parsed.repository = Some(value);
        return Ok(2);
    }
    if str_eq(token, "-w") || str_eq(token, "--workers") {
        let value = next_value(args, index, "--workers")?;
        return set_workers(parsed, value.as_str(), 2);
    }
    if str_eq(token, "--package-dir") {
        let value = next_value(args, index, "--package-dir")?;
        parsed.package_dir = Some(value);
        return Ok(2);
    }
    if str_eq(token, "--output-dir") {
        let value = next_value(args, index, "--output-dir")?;
        parsed.output_dir = Some(value);
        return Ok(2);
    }
    if str_eq(token, "--logs-dir") {
        let value = next_value(args, index, "--logs-dir")?;
        parsed.logs_dir = Some(value);
        return Ok(2);
    }
    proof {
        reveal_strlit("--repository=");
        reveal_strlit("-r=");
        reveal_strlit("--package-dir=");
        reveal_strlit("--output-dir=");
        reveal_strlit("--logs-dir=");
        reveal_strlit("--workers=");
    }
    if starts_with(token, "--repository=") {
        parsed.repository = Some(strip_prefix_all(token, "--repository="));
        return Ok(1);
    }
    if starts_with(token, "-r=") {
        parsed.repository = Some(strip_prefix_all(token, "-r="));
        return Ok(1);
    }
    if starts_with(token, "--package-dir=") {
        parsed.package_dir = Some(strip_prefix_all(token, "--package-dir="));
        return Ok(1);
    }
    if starts_with(token, "--output-dir=") {
        parsed.output_dir = Some(strip_prefix_all(token, "--output-dir="));
        return Ok(1);
    }
    if starts_with(token, "--logs-dir=") {
        parsed.logs_dir = Some(strip_prefix_all(token, "--logs-dir="));
        return Ok(1);
    }
    if starts_with(token, "--workers=") {
        let value = strip_prefix_all(token, "--workers=");
        return set_workers(parsed, value.as_str(), 1);
    }
    match mode {
        ParseMode::Direct => {
            let ghost before = parsed.command@;
            parsed.command.push(args[index].clone());
            proof {
                lemma_string_views_push(before, args@[index as int]);
            }
            Ok(1)
        },
        ParseMode::Interactive => Err(
            concat3(
                "unexpected argument '",
                token,
                "' (interactive mode does not take subcommands; omit the subcommand for the TUI or pass a command for Direct CLI)",
            ),
        ),
    }
}

/// Parses the root flags of a command line. In `Direct` mode the words that are not flags
/// become the subcommand; in `Interactive` mode such a word is an error.
pub fn parse_root_args(args: Vec<String>, mode: ParseMode) -> (r: Result<RootArgs, String>)
    ensures
        parse_view(r) == spec_parse_root_args(string_views(args@), mode),
{
    let ghost ts = string_views(args@);
    let mut parsed = empty_root_args();
    let mut index: usize = 0;
    assert(ts.skip(0) =~= ts);
    while index < args.len()
        invariant
            index <= args@.len(),
            ts == string_views(args@),
            spec_parse_root_args(ts, mode) == spec_parse_tokens(ts.skip(index as int), mode, parsed@),
        decreases args.len() - index,
    {
        let ghost rest = ts.skip(index as int);
        let ghost before = parsed@;
        match parse_step(&args, index, mode, &mut parsed) {
            Ok(n) => {
                proof {
                    assert(rest.len() > 0);
                    assert(1 <= n <= rest.len()) by {
                        lemma_step_uses(rest, mode, before);
                    }
                    assert(rest.skip(n as int) =~= ts.skip(index + n));
                }
                index += n;
            },
            Err(e) => {
                return Err(e);
            },
        }
    }
    assert(ts.skip(index as int).len() == 0);
    Ok(parsed)
}

/// A step uses one token, or two when the flag takes a value that is there.
proof fn lemma_step_uses(ts: Seq<Seq<char>>, mode: ParseMode, a: RootArgsModel)
    requires
        ts.len() > 0,
    ensures
        match spec_step(ts, mode, a) {
            Ok((_, n)) => 1 <= n <= ts.len(),
            Err(_) => true,
        },
{
}

/// A token sequence that parses reads the same way when more tokens follow it.
proof fn lemma_step_prefix(a: Seq<Seq<char>>, b: Seq<Seq<char>>, mode: ParseMode, acc: RootArgsModel)
    requires
        a.len() > 0,
        spec_step(a, mode, acc) is Ok,
    ensures
        spec_step(a + b, mode, acc) == spec_step(a, mode, acc),
{
    assert((a + b)[0] == a[0]);
    if a.len() >= 2 {
        assert((a + b)[1] == a[1]);
    }
}

/// Parsing `a` then `b` is parsing `a + b`, whenever `a` parses on its own.
pub proof fn lemma_parse_tokens_concat(a: Seq<Seq<char>>, b: Seq<Seq<char>>, mode: ParseMode, acc: RootArgsModel)
    requires
        spec_parse_tokens(a, mode, acc) is Ok,
    ensures
        spec_parse_tokens(a + b, mode, acc) == spec_parse_tokens(b, mode, spec_parse_tokens(a, mode, acc)->Ok_0),
    decreases a.len(),
{
    if a.len() == 0 {
        assert(a + b =~= b);
    } else {
        lemma_step_uses(a, mode, acc);
        lemma_step_prefix(a, b, mode, acc);
        match spec_step(a, mode, acc) {
            Ok((c, n)) => {
                assert((a + b).skip(n) =~= a.skip(n) + b);
                lemma_parse_tokens_concat(a.skip(n), b, mode, c);
            },
            Err(_) => {},
        }
    }
}

/// Root flags may stand anywhere: when the words `a` parse, the flags of `a + b` are those of
/// `a` with the words `b` read on top of them (so `--trace` may follow the subcommand).
pub proof fn law_flags_compose(a: Seq<Seq<char>>, b: Seq<Seq<char>>, mode: ParseMode)
    requires
        spec_parse_root_args(a, mode) is Ok,
    ensures
        spec_parse_root_args(a + b, mode) == spec_parse_tokens(b, mode, spec_parse_root_args(a, mode)->Ok_0),
{
    lemma_parse_tokens_concat(a, b, mode, default_root_args());
}

/// Whatever the interactive mode accepts carries no subcommand.
pub proof fn law_interactive_has_no_command(ts: Seq<Seq<char>>)
    ensures
        spec_parse_root_args(ts, ParseMode::Interactive) matches Ok(r) ==> r.command.len() == 0,
{
    lemma_interactive_keeps_command(ts, default_root_args());
}

proof fn lemma_interactive_keeps_command(ts: Seq<Seq<char>>, acc: RootArgsModel)
    ensures
        spec_parse_tokens(ts, ParseMode::Interactive, acc) matches Ok(r) ==> r.command == acc.command,
    decreases ts.len(),
{
    if ts.len() > 0 {
        lemma_step_uses(ts, ParseMode::Interactive, acc);
        match spec_step(ts, ParseMode::Interactive, acc) {
            Ok((c, n)) => {
                lemma_interactive_keeps_command(ts.skip(n), c);
            },
            Err(_) => {},
        }
    }
}

/// A token that differs from `q` at index `j` is not `q` and does not start with it.
proof fn lemma_token_is_not(t: Seq<char>, q: Seq<char>, j: int)
    requires
        0 <= j < t.len(),
        j < q.len(),
        t[j] != q[j],
    ensures
        t != q,
        !has_prefix(t, q),
{
    if has_prefix(t, q) {
        assert(t.subrange(0, q.len() as int)[j] == t[j]);
    }
}

/// `p + v` with every leading copy of `p` stripped is `v`, when `v` does not itself start with `p`.
proof fn lemma_strip_joined(p: Seq<char>, v: Seq<char>)
    requires
        p.len() > 0,
        !has_prefix(v, p),
    ensures
        has_prefix(p + v, p),
        strip_all_prefix(p + v, p) == v,
{
    assert((p + v).subrange(0, p.len() as int) =~= p);
    assert((p + v).skip(p.len() as int) =~= v);
    assert(strip_all_prefix(v, p) == v);
}

/// A flag taking the next word as its value, followed by that word and then `rest`.
pub open spec fn spaced(flag: Seq<char>, v: Seq<char>, rest: Seq<Seq<char>>) -> Seq<Seq<char>> {
    seq![flag, v] + rest
}

/// A flag joined to its value by `=`, followed by `rest`.
pub open spec fn joined(prefix: Seq<char>, v: Seq<char>, rest: Seq<Seq<char>>) -> Seq<Seq<char>> {
    seq![prefix + v] + rest
}

/// Each switch sets its own setting and nothing else: `-h`/`--help` asks for help, `--version`
/// for the version, `-m`/`--min` the minimal output, `-t`/`--trace` tracing and `-y`/`--yes`
/// the automatic yes; the remaining words are read on top.
pub proof fn law_switches(rest: Seq<Seq<char>>, mode: ParseMode, a: RootArgsModel)
    ensures
        spec_parse_tokens(seq!["-h"@] + rest, mode, a)
            == spec_parse_tokens(rest, mode, (RootArgsModel { show_help: true, ..a })),
        spec_parse_tokens(seq!["--help"@] + rest, mode, a)
            == spec_parse_tokens(rest, mode, (RootArgsModel { show_help: true, ..a })),
        spec_parse_tokens(seq!["--version"@] + rest, mode, a)
            == spec_parse_tokens(rest, mode, (RootArgsModel { show_version: true, ..a })),
        spec_parse_tokens(seq!["-m"@] + rest, mode, a)
            == spec_parse_tokens(rest, mode, (RootArgsModel { min: true, ..a })),
        spec_parse_tokens(seq!["--min"@] + rest, mode, a)
            == spec_parse_tokens(rest, mode, (RootArgsModel { min: true, ..a })),
        spec_parse_tokens(seq!["-t"@] + rest, mode, a)
            == spec_parse_tokens(rest, mode, (RootArgsModel { trace: true, ..a })),
        spec_parse_tokens(seq!["--trace"@] + rest, mode, a)
            == spec_parse_tokens(rest, mode, (RootArgsModel { trace: true, ..a })),
        spec_parse_tokens(seq!["-y"@] + rest, mode, a)
            == spec_parse_tokens(rest, mode, (RootArgsModel { yes: true, ..a })),
        spec_parse_tokens(seq!["--yes"@] + rest, mode, a)
            == spec_parse_tokens(rest, mode, (RootArgsModel { yes: true, ..a })),
{
    reveal_strlit("-h");
    reveal_strlit("--help");
    reveal_strlit("--version");
    reveal_strlit("-m");
    reveal_strlit("--min");
    reveal_strlit("-t");
    reveal_strlit("--trace");
    reveal_strlit("-y");
    reveal_strlit("--yes");
    reveal_strlit("-r");
    reveal_strlit("--repository");
    reveal_strlit("-w");
    reveal_strlit("--workers");
    reveal_strlit("--package-dir");
    reveal_strlit("--output-dir");
    reveal_strlit("--logs-dir");
    reveal_strlit("--repository=");
    reveal_strlit("-r=");
    reveal_strlit("--package-dir=");
    reveal_strlit("--output-dir=");
    reveal_strlit("--logs-dir=");
    reveal_strlit("--workers=");
    {
        let ts = seq!["-h"@] + rest;
        assert(ts[0] == "-h"@);
        assert(ts.skip(1) =~= rest);
    }
    {
        let ts = seq!["--help"@] + rest;
        assert(ts[0] == "--help"@);
        assert(ts.skip(1) =~= rest);
    }
    {
        let ts = seq!["--version"@] + rest;
        assert(ts[0] == "--version"@);
        assert(ts.skip(1) =~= rest);
    }
    {
        let ts = seq!["-m"@] + rest;
        assert(ts[0] == "-m"@);
        assert(ts.skip(1) =~= rest);
        lemma_token_is_not(ts[0], "-h"@, 1);
    }
    {
        let ts = seq!["--min"@] + rest;
        assert(ts[0] == "--min"@);
        assert(ts.skip(1) =~= rest);
    }
    {
        let ts = seq!["-t"@] + rest;
        assert(ts[0] == "-t"@);
        assert(ts.skip(1) =~= rest);
        lemma_token_is_not(ts[0], "-h"@, 1);
        lemma_token_is_not(ts[0], "-m"@, 1);
    }
    {
        let ts = seq!["--trace"@] + rest;
        assert(ts[0] == "--trace"@);
        assert(ts.skip(1) =~= rest);
    }
    {
        let ts = seq!["-y"@] + rest;
        assert(ts[0] == "-y"@);
        assert(ts.skip(1) =~= rest);
        lemma_token_is_not(ts[0], "-h"@, 1);
        lemma_token_is_not(ts[0], "-m"@, 1);
        lemma_token_is_not(ts[0], "-t"@, 1);
    }
    {
        let ts = seq!["--yes"@] + rest;
        assert(ts[0] == "--yes"@);
        assert(ts.skip(1) =~= rest);
        lemma_token_is_not(ts[0], "--min"@, 2);
    }
}

/// A word that is not a flag (it does not start with `-`) is a subcommand word: the direct mode
/// appends it to the command and reads on, the interactive mode refuses it by name.
pub proof fn law_plain_words(w: Seq<char>, rest: Seq<Seq<char>>, a: RootArgsModel)
    requires
        w.len() > 0,
        w[0] != '-',
    ensures
        spec_parse_tokens(seq![w] + rest, ParseMode::Direct, a)
            == spec_parse_tokens(rest, ParseMode::Direct, (RootArgsModel { command: a.command.push(w), ..a })),
        spec_parse_tokens(seq![w] + rest, ParseMode::Interactive, a) == Err::<RootArgsModel, Seq<char>>(
            unexpected_message(w),
        ),
{
    reveal_strlit("-h");
    reveal_strlit("--help");
    reveal_strlit("--version");
    reveal_strlit("-m");
    reveal_strlit("--min");
    reveal_strlit("-t");
    reveal_strlit("--trace");
    reveal_strlit("-y");
    reveal_strlit("--yes");
    reveal_strlit("-r");
    reveal_strlit("--repository");
    reveal_strlit("-w");
    reveal_strlit("--workers");
    reveal_strlit("--package-dir");
    reveal_strlit("--output-dir");
    reveal_strlit("--logs-dir");
    reveal_strlit("--repository=");
    reveal_strlit("-r=");
    reveal_strlit("--package-dir=");
    reveal_strlit("--output-dir=");
    reveal_strlit("--logs-dir=");
    reveal_strlit("--workers=");
    let ts = seq![w] + rest;
    assert(ts[0] == w);
    assert(ts.skip(1) =~= rest);
        lemma_token_is_not(w, "-h"@, 0);
        lemma_token_is_not(w, "--help"@, 0);
        lemma_token_is_not(w, "--version"@, 0);
        lemma_token_is_not(w, "-m"@, 0);
        lemma_token_is_not(w, "--min"@, 0);
        lemma_token_is_not(w, "-t"@, 0);
        lemma_token_is_not(w, "--trace"@, 0);
        lemma_token_is_not(w, "-y"@, 0);
        lemma_token_is_not(w, "--yes"@, 0);
        lemma_token_is_not(w, "-r"@, 0);
        lemma_token_is_not(w, "--repository"@, 0);
        lemma_token_is_not(w, "-w"@, 0);
        lemma_token_is_not(w, "--workers"@, 0);
        lemma_token_is_not(w, "--package-dir"@, 0);
        lemma_token_is_not(w, "--output-dir"@, 0);
        lemma_token_is_not(w, "--logs-dir"@, 0);
        lemma_token_is_not(w, "--repository="@, 0);
        lemma_token_is_not(w, "-r="@, 0);
        lemma_token_is_not(w, "--package-dir="@, 0);
        lemma_token_is_not(w, "--output-dir="@, 0);
        lemma_token_is_not(w, "--logs-dir="@, 0);
        lemma_token_is_not(w, "--workers="@, 0);
}

/// `-r` / `--repository` sets the repository and nothing else, in the spaced and the `=`
/// forms alike: each gives `repository == Some(v)` and reads the remaining words on top.
pub proof fn law_repository_flag(v: Seq<char>, rest: Seq<Seq<char>>, mode: ParseMode, a: RootArgsModel)
    ensures
        spec_parse_tokens(spaced("-r"@, v, rest), mode, a)
            == spec_parse_tokens(rest, mode, (RootArgsModel { repository: Some(v), ..a })),
        spec_parse_tokens(spaced("--repository"@, v, rest), mode, a)
            == spec_parse_tokens(rest, mode, (RootArgsModel { repository: Some(v), ..a })),
        !has_prefix(v, "--repository="@) ==> spec_parse_tokens(joined("--repository="@, v, rest), mode, a)
            == spec_parse_tokens(rest, mode, (RootArgsModel { repository: Some(v), ..a })),
        !has_prefix(v, "-r="@) ==> spec_parse_tokens(joined("-r="@, v, rest), mode, a)
            == spec_parse_tokens(rest, mode, (RootArgsModel { repository: Some(v), ..a })),
{
    reveal_strlit("-h");
    reveal_strlit("--help");
    reveal_strlit("--version");
    reveal_strlit("-m");
    reveal_strlit("--min");
    reveal_strlit("-t");
    reveal_strlit("--trace");
    reveal_strlit("-y");
    reveal_strlit("--yes");
    reveal_strlit("-r");
    reveal_strlit("--repository");
    reveal_strlit("-w");
    reveal_strlit("--workers");
    reveal_strlit("--package-dir");
    reveal_strlit("--output-dir");
    reveal_strlit("--logs-dir");
    reveal_strlit("--repository=");
    reveal_strlit("-r=");
    reveal_strlit("--package-dir=");
    reveal_strlit("--output-dir=");
    reveal_strlit("--logs-dir=");
    reveal_strlit("--workers=");
    {
        let ts = spaced("-r"@, v, rest);
        assert(ts[0] == "-r"@);
        assert(ts[1] == v);
        assert(ts.skip(2) =~= rest);
        lemma_token_is_not(ts[0], "-h"@, 1);
        lemma_token_is_not(ts[0], "-m"@, 1);
        lemma_token_is_not(ts[0], "-t"@, 1);
        lemma_token_is_not(ts[0], "-y"@, 1);
    }
    {
        let ts = spaced("--repository"@, v, rest);
        assert(ts[0] == "--repository"@);
        assert(ts[1] == v);
        assert(ts.skip(2) =~= rest);
    }
    if !has_prefix(v, "--repository="@) {
        let t = "--repository="@ + v;
        let us = joined("--repository="@, v, rest);
        assert(us[0] == t);
        assert(us.skip(1) =~= rest);
        assert(t[1] == "--repository="@[1]);
        assert(t[2] == "--repository="@[2]);
        lemma_token_is_not(t, "--package-dir"@, 2);
        lemma_strip_joined("--repository="@, v);
    }
    if !has_prefix(v, "-r="@) {
        let t = "-r="@ + v;
        let us = joined("-r="@, v, rest);
        assert(us[0] == t);
        assert(us.skip(1) =~= rest);
        assert(t[1] == "-r="@[1]);
        assert(t[2] == "-r="@[2]);
        lemma_token_is_not(t, "--help"@, 1);
        lemma_token_is_not(t, "--version"@, 1);
        lemma_token_is_not(t, "--min"@, 1);
        lemma_token_is_not(t, "--trace"@, 1);
        lemma_token_is_not(t, "--yes"@, 1);
        lemma_token_is_not(t, "--repository"@, 1);
        lemma_token_is_not(t, "--workers"@, 1);
        lemma_token_is_not(t, "--package-dir"@, 1);
        lemma_token_is_not(t, "--output-dir"@, 1);
        lemma_token_is_not(t, "--logs-dir"@, 1);
        lemma_token_is_not(t, "--repository="@, 1);
        lemma_strip_joined("-r="@, v);
    }
}

/// `--package-dir` sets the package directory and nothing else, and its two forms agree:
/// `--package-dir <v>` and `--package-dir=<v>` both give `package_dir == Some(v)` and read the
/// remaining words on top of that.
pub proof fn law_package_dir_flag(v: Seq<char>, rest: Seq<Seq<char>>, mode: ParseMode, a: RootArgsModel)
    ensures
        spec_parse_tokens(spaced("--package-dir"@, v, rest), mode, a)
            == spec_parse_tokens(rest, mode, (RootArgsModel { package_dir: Some(v), ..a })),
        !has_prefix(v, "--package-dir="@) ==> spec_parse_tokens(joined("--package-dir="@, v, rest), mode, a)
            == spec_parse_tokens(rest, mode, (RootArgsModel { package_dir: Some(v), ..a })),
{
    reveal_strlit("-h");
    reveal_strlit("--help");
    reveal_strlit("--version");
    reveal_strlit("-m");
    reveal_strlit("--min");
    reveal_strlit("-t");
    reveal_strlit("--trace");
    reveal_strlit("-y");
    reveal_strlit("--yes");
    reveal_strlit("-r");
    reveal_strlit("--repository");
    reveal_strlit("-w");
    reveal_strlit("--workers");
    reveal_strlit("--package-dir");
    reveal_strlit("--output-dir");
    reveal_strlit("--logs-dir");
    reveal_strlit("--repository=");
    reveal_strlit("-r=");
    reveal_strlit("--package-dir=");
    reveal_strlit("--output-dir=");
    reveal_strlit("--logs-dir=");
    reveal_strlit("--workers=");
    {
        let ts = spaced("--package-dir"@, v, rest);
        assert(ts[0] == "--package-dir"@);
        assert(ts[1] == v);
        assert(ts.skip(2) =~= rest);
    }
    if !has_prefix(v, "--package-dir="@) {
        let t = "--package-dir="@ + v;
        let us = joined("--package-dir="@, v, rest);
        assert(us[0] == t);
        assert(us.skip(1) =~= rest);
        assert(t[1] == "--package-dir="@[1]);
        assert(t[2] == "--package-dir="@[2]);
        lemma_token_is_not(t, "--repository="@, 2);
        lemma_token_is_not(t, "-r="@, 1);
        lemma_strip_joined("--package-dir="@, v);
    }
}

/// `--output-dir` sets the output directory and nothing else, in the spaced and the `=` forms
/// alike: each gives `output_dir == Some(v)` and reads the remaining words on top.
pub proof fn law_output_dir_flag(v: Seq<char>, rest: Seq<Seq<char>>, mode: ParseMode, a: RootArgsModel)
    ensures
        spec_parse_tokens(spaced("--output-dir"@, v, rest), mode, a)
            == spec_parse_tokens(rest, mode, (RootArgsModel { output_dir: Some(v), ..a })),
        !has_prefix(v, "--output-dir="@) ==> spec_parse_tokens(joined("--output-dir="@, v, rest), mode, a)
            == spec_parse_tokens(rest, mode, (RootArgsModel { output_dir: Some(v), ..a })),
{
    reveal_strlit("-h");
    reveal_strlit("--help");
    reveal_strlit("--version");
    reveal_strlit("-m");
    reveal_strlit("--min");
    reveal_strlit("-t");
    reveal_strlit("--trace");
    reveal_strlit("-y");
    reveal_strlit("--yes");
    reveal_strlit("-r");
    reveal_strlit("--repository");
    reveal_strlit("-w");
    reveal_strlit("--workers");
    reveal_strlit("--package-dir");
    reveal_strlit("--output-dir");
    reveal_strlit("--logs-dir");
    reveal_strlit("--repository=");
    reveal_strlit("-r=");
    reveal_strlit("--package-dir=");
    reveal_strlit("--output-dir=");
    reveal_strlit("--logs-dir=");
    reveal_strlit("--workers=");
    {
        let ts = spaced("--output-dir"@, v, rest);
        assert(ts[0] == "--output-dir"@);
        assert(ts[1] == v);
        assert(ts.skip(2) =~= rest);
        lemma_token_is_not(ts[0], "--repository"@, 2);
    }
    if !has_prefix(v, "--output-dir="@) {
        let t = "--output-dir="@ + v;
        let us = joined("--output-dir="@, v, rest);
        assert(us[0] == t);
        assert(us.skip(1) =~= rest);
        assert(t[1] == "--output-dir="@[1]);
        assert(t[2] == "--output-dir="@[2]);
        lemma_token_is_not(t, "--repository="@, 2);
        lemma_token_is_not(t, "-r="@, 1);
        lemma_token_is_not(t, "--package-dir="@, 2);
        lemma_token_is_not(t, "--package-dir"@, 2);
        lemma_strip_joined("--output-dir="@, v);
    }
}

/// `--logs-dir` sets the logs directory and nothing else, in the spaced and the `=` forms
/// alike: each gives `logs_dir == Some(v)` and reads the remaining words on top.
pub proof fn law_logs_dir_flag(v: Seq<char>, rest: Seq<Seq<char>>, mode: ParseMode, a: RootArgsModel)
    ensures
        spec_parse_tokens(spaced("--logs-dir"@, v, rest), mode, a)
            == spec_parse_tokens(rest, mode, (RootArgsModel { logs_dir: Some(v), ..a })),
        !has_prefix(v, "--logs-dir="@) ==> spec_parse_tokens(joined("--logs-dir="@, v, rest), mode, a)
            == spec_parse_tokens(rest, mode, (RootArgsModel { logs_dir: Some(v), ..a })),
{
    reveal_strlit("-h");
    reveal_strlit("--help");
    reveal_strlit("--version");
    reveal_strlit("-m");
    reveal_strlit("--min");
    reveal_strlit("-t");
    reveal_strlit("--trace");
    reveal_strlit("-y");
    reveal_strlit("--yes");
    reveal_strlit("-r");
    reveal_strlit("--repository");
    reveal_strlit("-w");
    reveal_strlit("--workers");
    reveal_strlit("--package-dir");
    reveal_strlit("--output-dir");
    reveal_strlit("--logs-dir");
    reveal_strlit("--repository=");
    reveal_strlit("-r=");
    reveal_strlit("--package-dir=");
    reveal_strlit("--output-dir=");
    reveal_strlit("--logs-dir=");
    reveal_strlit("--workers=");
    {
        let ts = spaced("--logs-dir"@, v, rest);
        assert(ts[0] == "--logs-dir"@);
        assert(ts[1] == v);
        assert(ts.skip(2) =~= rest);
    }
    if !has_prefix(v, "--logs-dir="@) {
        let t = "--logs-dir="@ + v;
        let us = joined("--logs-dir="@, v, rest);
        assert(us[0] == t);
        assert(us.skip(1) =~= rest);
        assert(t[1] == "--logs-dir="@[1]);
        assert(t[2] == "--logs-dir="@[2]);
        lemma_token_is_not(t, "--repository="@, 2);
        lemma_token_is_not(t, "-r="@, 1);
        lemma_token_is_not(t, "--package-dir="@, 2);
        lemma_token_is_not(t, "--output-dir="@, 2);
        lemma_token_is_not(t, "--repository"@, 2);
        lemma_token_is_not(t, "--package-dir"@, 2);
        lemma_token_is_not(t, "--output-dir"@, 2);
        lemma_strip_joined("--logs-dir="@, v);
    }
}

/// The words `rest` read with the worker count set to `v` read as a number, or the error
/// naming `v` when it is not one.
pub open spec fn workers_then(v: Seq<char>, rest: Seq<Seq<char>>, mode: ParseMode, a: RootArgsModel) -> Result<
    RootArgsModel,
    Seq<char>,
> {
    match spec_parse_usize(v) {
        Some(n) => spec_parse_tokens(rest, mode, (RootArgsModel { workers: Some(n), ..a })),
        None => Err(bad_workers_message(v)),
    }
}

/// `-w` / `--workers` sets the worker count to the value read as a number, in the spaced and
/// the `=` forms alike, and nothing else; a value that is not a number is an error naming it.
pub proof fn law_workers_flag(v: Seq<char>, rest: Seq<Seq<char>>, mode: ParseMode, a: RootArgsModel)
    ensures
        spec_parse_tokens(spaced("-w"@, v, rest), mode, a)
            == workers_then(v, rest, mode, a),
        spec_parse_tokens(spaced("--workers"@, v, rest), mode, a)
            == workers_then(v, rest, mode, a),
        !has_prefix(v, "--workers="@) ==> spec_parse_tokens(joined("--workers="@, v, rest), mode, a)
            == workers_then(v, rest, mode, a),
{
    reveal_strlit("-h");
    reveal_strlit("--help");
    reveal_strlit("--version");
    reveal_strlit("-m");
    reveal_strlit("--min");
    reveal_strlit("-t");
    reveal_strlit("--trace");
    reveal_strlit("-y");
    reveal_strlit("--yes");
    reveal_strlit("-r");
    reveal_strlit("--repository");
    reveal_strlit("-w");
    reveal_strlit("--workers");
    reveal_strlit("--package-dir");
    reveal_strlit("--output-dir");
    reveal_strlit("--logs-dir");
    reveal_strlit("--repository=");
    reveal_strlit("-r=");
    reveal_strlit("--package-dir=");
    reveal_strlit("--output-dir=");
    reveal_strlit("--logs-dir=");
    reveal_strlit("--workers=");
    {
        let ts = spaced("-w"@, v, rest);
        assert(ts[0] == "-w"@);
        assert(ts[1] == v);
        assert(ts.skip(2) =~= rest);
        lemma_token_is_not(ts[0], "-h"@, 1);
        lemma_token_is_not(ts[0], "-m"@, 1);
        lemma_token_is_not(ts[0], "-t"@, 1);
        lemma_token_is_not(ts[0], "-y"@, 1);
        lemma_token_is_not(ts[0], "-r"@, 1);
    }
    {
        let ts = spaced("--workers"@, v, rest);
        assert(ts[0] == "--workers"@);
        assert(ts[1] == v);
        assert(ts.skip(2) =~= rest);
        lemma_token_is_not(ts[0], "--version"@, 3);
    }
    if !has_prefix(v, "--workers="@) {
        let t = "--workers="@ + v;
        let us = joined("--workers="@, v, rest);
        assert(us[0] == t);
        assert(us.skip(1) =~= rest);
        assert(t[1] == "--workers="@[1]);
        assert(t[2] == "--workers="@[2]);
        lemma_token_is_not(t, "--repository="@, 2);
        lemma_token_is_not(t, "-r="@, 1);
        lemma_token_is_not(t, "--package-dir="@, 2);
        lemma_token_is_not(t, "--output-dir="@, 2);
        lemma_token_is_not(t, "--logs-dir="@, 2);
        lemma_token_is_not(t, "--repository"@, 2);
        lemma_token_is_not(t, "--package-dir"@, 2);
        lemma_token_is_not(t, "--output-dir"@, 2);
        lemma_token_is_not(t, "--logs-dir"@, 2);
        lemma_strip_joined("--workers="@, v);
    }
}

} // verus!
