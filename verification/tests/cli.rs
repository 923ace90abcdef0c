use capture_rename::cli::parse_arguments;

fn parse(arguments: &[&str]) -> (String, bool) {
    let owned: Vec<String> = arguments.iter().map(|argument| argument.to_string()).collect();
    let invocation = parse_arguments(&owned);
    (invocation.directory, invocation.dry_run)
}

#[test]
fn no_arguments_mean_current_directory() {
    assert_eq!(parse(&[]), (".".to_string(), false));
}

#[test]
fn directory_alone() {
    assert_eq!(parse(&["photos"]), ("photos".to_string(), false));
}

#[test]
fn directory_then_flag() {
    assert_eq!(parse(&["photos", "--dry-run"]), ("photos".to_string(), true));
}

#[test]
fn flag_then_directory() {
    assert_eq!(parse(&["--dry-run", "photos"]), ("photos".to_string(), true));
}

#[test]
fn flag_alone() {
    assert_eq!(parse(&["--dry-run"]), (".".to_string(), true));
}

#[test]
fn first_directory_wins() {
    assert_eq!(parse(&["a", "b"]), ("a".to_string(), false));
    assert_eq!(parse(&["a", "--dry-run", "b", "--dry-run"]), ("a".to_string(), true));
}

#[test]
fn other_dashes_are_directories() {
    assert_eq!(parse(&["--dryrun"]), ("--dryrun".to_string(), false));
    assert_eq!(parse(&["-n", "--dry-run"]), ("-n".to_string(), true));
}
