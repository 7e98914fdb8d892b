use minigrep::{usage, BuildError, Built, Config, InputSource};

fn args_of(tokens: &[&str]) -> Vec<String> {
    tokens.iter().map(|t| t.to_string()).collect()
}

fn ready(result: Result<Built, BuildError>) -> Config {
    match result {
        Ok(Built::Ready(config)) => config,
        Ok(Built::Usage) => panic!("expected a configuration, got the usage request"),
        Err(e) => panic!("expected a configuration, got error: {}", e.message()),
    }
}

#[test]
fn positional_query_and_file() {
    let config = ready(Config::build(&args_of(&["minigrep", "duct", "poem.txt"]), false));
    assert_eq!(config.query, "duct");
    assert!(!config.ignore_case);
    match config.input {
        InputSource::FilePath(path) => assert_eq!(path, "poem.txt"),
        InputSource::StandardInput => panic!("expected a file path"),
    }
}

#[test]
fn missing_file_falls_back_to_standard_input() {
    let config = ready(Config::build(&args_of(&["minigrep", "duct"]), false));
    assert_eq!(config.query, "duct");
    assert!(matches!(config.input, InputSource::StandardInput));
}

#[test]
fn dash_i_sets_ignore_case() {
    let config = ready(Config::build(&args_of(&["minigrep", "-i", "duct"]), false));
    assert_eq!(config.query, "duct");
    assert!(config.ignore_case);
}

#[test]
fn env_variable_forces_ignore_case() {
    let config = ready(Config::build(&args_of(&["minigrep", "duct"]), true));
    assert!(config.ignore_case);
}

#[test]
fn unopenable_path_is_recorded_for_the_caller() {
    let config = ready(Config::build(&args_of(&["minigrep", "-i", "hello", "missing.txt"]), false));
    assert_eq!(config.query, "hello");
    assert!(config.ignore_case);
    match config.input {
        InputSource::FilePath(path) => assert_eq!(path, "missing.txt"),
        InputSource::StandardInput => panic!("expected a file path"),
    }
}

#[test]
fn help_is_a_distinct_outcome() {
    assert!(matches!(
        Config::build(&args_of(&["minigrep", "-h"]), false),
        Ok(Built::Usage)
    ));
    assert!(matches!(
        Config::build(&args_of(&["minigrep", "-i", "-h", "duct"]), false),
        Ok(Built::Usage)
    ));
}

#[test]
fn usage_text_is_the_documented_line() {
    assert_eq!(usage(), "Usage: minigrep [-i] [-e] pattern [file]");
}

#[test]
fn explicit_query_may_look_like_a_flag() {
    let config = ready(Config::build(&args_of(&["minigrep", "-e", "-i"]), false));
    assert_eq!(config.query, "-i");
    assert!(!config.ignore_case);
    assert!(matches!(config.input, InputSource::StandardInput));
}

#[test]
fn missing_query_after_flag() {
    assert!(matches!(
        Config::build(&args_of(&["minigrep", "-e"]), false),
        Err(BuildError::MissingQueryAfterFlag)
    ));
    assert!(matches!(
        Config::build(&args_of(&["minigrep", "-i", "-e"]), false),
        Err(BuildError::MissingQueryAfterFlag)
    ));
}

#[test]
fn missing_query_pattern() {
    assert!(matches!(
        Config::build(&args_of(&["minigrep"]), false),
        Err(BuildError::MissingQueryPattern)
    ));
    assert!(matches!(
        Config::build(&args_of(&["minigrep", "-i"]), false),
        Err(BuildError::MissingQueryPattern)
    ));
}

#[test]
fn error_messages_name_the_fault() {
    assert_eq!(BuildError::MissingQueryPattern.message(), "Need search pattern");
    assert_eq!(BuildError::MissingQueryAfterFlag.message(), "Need query string after -e");
}

#[test]
fn tokens_after_the_file_are_ignored() {
    let config = ready(Config::build(&args_of(&["minigrep", "q", "a.txt", "b.txt"]), false));
    assert_eq!(config.query, "q");
    match config.input {
        InputSource::FilePath(path) => assert_eq!(path, "a.txt"),
        InputSource::StandardInput => panic!("expected a file path"),
    }
}
