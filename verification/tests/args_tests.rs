use drot::args::{EarlyRepository, ParseMode, parse_root_args, parse_usize, try_early_repository};

fn words(ws: &[&str]) -> Vec<String> {
    ws.iter().map(|w| (*w).to_owned()).collect()
}

#[test]
fn repository_flag_parsed() {
    let parsed = parse_root_args(words(&["-r", "/repo", "config", "show"]), ParseMode::Direct).unwrap();
    assert_eq!(parsed.repository, Some("/repo".into()));
}

#[test]
fn repository_long_flag_parsed() {
    let parsed = parse_root_args(words(&["--repository=/repo", "config", "show"]), ParseMode::Direct).unwrap();
    assert_eq!(parsed.repository, Some("/repo".into()));
}

#[test]
fn trace_flag_may_follow_subcommand() {
    let parsed = parse_root_args(words(&["defs", "inspect-trid-xml", "--trace"]), ParseMode::Direct).unwrap();
    assert!(parsed.trace);
    assert_eq!(parsed.command, vec!["defs", "inspect-trid-xml"]);
}

#[test]
fn min_flag_parsed() {
    let parsed = parse_root_args(words(&["defs", "inspect", "--min"]), ParseMode::Direct).unwrap();
    assert!(parsed.min);
}

#[test]
fn min_short_flag_parsed() {
    let parsed = parse_root_args(words(&["-m", "defs", "inspect"]), ParseMode::Direct).unwrap();
    assert!(parsed.min);
}

#[test]
fn trace_short_flag_parsed() {
    let parsed = parse_root_args(words(&["-t", "defs", "inspect-trid-xml"]), ParseMode::Direct).unwrap();
    assert!(parsed.trace);
}

#[test]
fn workers_flag_parsed() {
    let parsed = parse_root_args(words(&["-w", "2", "defs", "inspect"]), ParseMode::Direct).unwrap();
    assert_eq!(parsed.workers, Some(2));
}

#[test]
fn yes_flag_parsed() {
    let parsed = parse_root_args(words(&["--yes", "config", "show"]), ParseMode::Direct).unwrap();
    assert!(parsed.yes);
}

#[test]
fn interactive_rejects_subcommand_tokens() {
    let err = parse_root_args(words(&["config", "show"]), ParseMode::Interactive).unwrap_err();
    assert!(err.to_string().contains("unexpected argument"));
}

#[test]
fn value_flag_without_value_is_an_error() {
    let err = parse_root_args(words(&["config", "--logs-dir"]), ParseMode::Direct).unwrap_err();
    assert_eq!(err, "--logs-dir requires a value");
    let err = parse_root_args(words(&["-r"]), ParseMode::Direct).unwrap_err();
    assert_eq!(err, "--repository requires a value");
}

#[test]
fn bad_worker_count_is_an_error() {
    let err = parse_root_args(words(&["--workers=many"]), ParseMode::Direct).unwrap_err();
    assert_eq!(err, "'many' is not a valid worker count");
    let err = parse_root_args(words(&["-w", "-3"]), ParseMode::Direct).unwrap_err();
    assert_eq!(err, "'-3' is not a valid worker count");
}

#[test]
fn equals_forms_and_directories() {
    let parsed = parse_root_args(
        words(&["--package-dir=pkg", "--output-dir", "out", "--logs-dir=logs", "-r=/r", "--workers=+7", "-h", "--version"]),
        ParseMode::Interactive,
    )
    .unwrap();
    assert_eq!(parsed.package_dir, Some("pkg".to_owned()));
    assert_eq!(parsed.output_dir, Some("out".to_owned()));
    assert_eq!(parsed.logs_dir, Some("logs".to_owned()));
    assert_eq!(parsed.repository, Some("/r".to_owned()));
    assert_eq!(parsed.workers, Some(7));
    assert!(parsed.show_help && parsed.show_version);
    assert!(parsed.command.is_empty());
}

#[test]
fn equals_prefix_is_stripped_repeatedly() {
    let parsed = parse_root_args(words(&["--repository=--repository=/x"]), ParseMode::Direct).unwrap();
    assert_eq!(parsed.repository, Some("/x".to_owned()));
}

#[test]
fn usize_parsing_follows_std() {
    assert_eq!(parse_usize("0"), Some(0));
    assert_eq!(parse_usize("+12"), Some(12));
    assert_eq!(parse_usize("007"), Some(7));
    assert_eq!(parse_usize(""), None);
    assert_eq!(parse_usize("+"), None);
    assert_eq!(parse_usize("-1"), None);
    assert_eq!(parse_usize("1 "), None);
    assert_eq!(parse_usize("99999999999999999999999999"), None);
    for n in [1usize, 42, 65535, usize::MAX] {
        assert_eq!(parse_usize(&n.to_string()), n.to_string().parse::<usize>().ok());
    }
}

#[test]
fn explicit_repository_wins_over_cache() {
    assert_eq!(try_early_repository(Some("/repo".to_owned())), EarlyRepository::ResolveAndPersist("/repo".to_owned()));
    assert_eq!(try_early_repository(None), EarlyRepository::Cached);
}

#[test]
fn flags_compose_across_the_subcommand() {
    let a = parse_root_args(words(&["-m", "defs"]), ParseMode::Direct).unwrap();
    let ab = parse_root_args(words(&["-m", "defs", "--trace", "inspect"]), ParseMode::Direct).unwrap();
    assert!(a.min && !a.trace);
    assert!(ab.min && ab.trace);
    assert_eq!(ab.command, vec!["defs", "inspect"]);
}
