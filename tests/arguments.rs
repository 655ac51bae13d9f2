use lai::cli::{parse_args, usage_text, Command, UsageError};

fn args(items: &[&str]) -> Vec<String> {
    items.iter().map(|s| s.to_string()).collect()
}

fn run_prompt(r: Result<Command, UsageError>) -> Option<String> {
    match r {
        Ok(Command::Run(p)) => Some(p),
        _ => None,
    }
}

#[test]
fn prompt_flag_sets_prompt() {
    assert_eq!(run_prompt(parse_args(&args(&["-p", "hi"]))), Some("hi".to_string()));
    assert_eq!(run_prompt(parse_args(&args(&["-p", "a", "-p", "b"]))), Some("b".to_string()));
    assert_eq!(run_prompt(parse_args(&args(&["-p", ""]))), Some(String::new()));
}

#[test]
fn no_arguments_leave_prompt_empty() {
    assert_eq!(run_prompt(parse_args(&args(&[]))), Some(String::new()));
}

#[test]
fn prompt_flag_without_value_is_refused() {
    let r = parse_args(&args(&["-p"]));
    assert!(matches!(r, Err(UsageError::MissingValue)));
    let r = parse_args(&args(&["-p", "x", "-p"]));
    match r {
        Err(e) => {
            assert!(matches!(e, UsageError::MissingValue));
            assert_eq!(e.message(), "Error: -p requires an argument");
            assert!(e.message().contains("-p requires an argument"));
        }
        Ok(_) => panic!("expected a usage error"),
    }
}

#[test]
fn help_flag_stops_the_scan() {
    assert!(matches!(parse_args(&args(&["-h"])), Ok(Command::Help)));
    assert!(matches!(parse_args(&args(&["-h", "-p", "anything"])), Ok(Command::Help)));
    assert!(matches!(parse_args(&args(&["-h", "-x"])), Ok(Command::Help)));
    assert!(matches!(parse_args(&args(&["-p", "v", "-h", "-x"])), Ok(Command::Help)));
    assert!(matches!(parse_args(&args(&["-p", "-h"])), Ok(Command::Run(_))));
}

#[test]
fn unknown_flag_is_refused_before_help() {
    let r = parse_args(&args(&["-x"]));
    match r {
        Err(e) => {
            assert!(matches!(&e, UsageError::InvalidOption(t) if t == "-x"));
            assert_eq!(e.message(), "Invalid option -x");
        }
        Ok(_) => panic!("expected a usage error"),
    }
    assert!(matches!(parse_args(&args(&["-x", "-h"])), Err(UsageError::InvalidOption(_))));
    assert!(matches!(
        parse_args(&args(&["-p", "v", "extra"])),
        Err(UsageError::InvalidOption(t)) if t == "extra"
    ));
}

#[test]
fn missing_prompt_message() {
    assert_eq!(UsageError::MissingPrompt.message(), "Error: Prompt (-p) is required.");
}

#[test]
fn usage_text_lists_both_flags() {
    let u = usage_text();
    assert!(u.starts_with("Usage: lai -p <prompt>\n"));
    assert!(u.contains("\n  -p <prompt>    User prompt to include with the piped/inline data\n"));
    assert!(u.ends_with("  -h             Show help\n"));
    assert_eq!(u.lines().count(), 6);
}
