use dirwatch::cli::parse;
use dirwatch::command::CommandSpec;
use dirwatch::termination::{Termination, EXIT_ABORT, EXIT_ERROR, EXIT_OK};
use dirwatch::supervisor::Failure;

fn words(list: &[&str]) -> Vec<String> {
    list.iter().map(|word| word.to_string()).collect()
}

#[test]
fn short_and_long_version_flags_are_read() {
    assert!(matches!(parse(words(&["-v"])), Err(Termination::Version)));
    assert!(matches!(parse(words(&["--version"])), Err(Termination::Version)));
}

#[test]
fn short_and_long_help_flags_are_read() {
    assert!(matches!(parse(words(&["-h"])), Err(Termination::Help)));
    assert!(matches!(parse(words(&["--help"])), Err(Termination::Help)));
}

#[test]
fn no_argument_is_a_usage_error() {
    assert!(matches!(parse(Vec::new()), Err(Termination::Usage)));
    assert_eq!(Termination::Usage.exit_code(), 1);
}

#[test]
fn only_the_first_argument_decides() {
    assert!(matches!(parse(words(&["-h", "ls"])), Err(Termination::Help)));
    assert!(matches!(parse(words(&["-v", "--help"])), Err(Termination::Version)));
    let command = parse(words(&["ls", "-h", "--version"])).unwrap();
    assert_eq!(command.words(), &words(&["ls", "-h", "--version"]));
}

#[test]
fn near_misses_of_the_flags_are_commands() {
    for word in ["-V", "--Version", "-help", "--h", "-", "--", "", "-vv", "version"] {
        let command = parse(words(&[word])).unwrap();
        assert_eq!(command.program(), word);
    }
}

#[test]
fn a_command_keeps_its_words_in_order() {
    let command = parse(words(&["cargo", "run", "--release"])).unwrap();
    assert_eq!(command.program(), "cargo");
    assert_eq!(command.arguments(), words(&["run", "--release"]));
    assert_eq!(command.words(), &words(&["cargo", "run", "--release"]));
}

#[test]
fn a_command_of_one_word_has_no_arguments() {
    let command = CommandSpec::new(words(&["make"])).unwrap();
    assert_eq!(command.program(), "make");
    assert!(command.arguments().is_empty());
    assert_eq!(command.command_line(), "make ");
}

#[test]
fn there_is_no_command_without_words() {
    assert!(CommandSpec::new(Vec::new()).is_none());
}

#[test]
fn the_command_line_puts_a_space_after_every_word() {
    let command = CommandSpec::new(words(&["echo", "hello world", "", "x"])).unwrap();
    assert_eq!(command.command_line(), "echo hello world  x ");
}

#[test]
fn exit_codes_by_reason() {
    assert_eq!(Termination::Help.exit_code(), 0);
    assert_eq!(Termination::Version.exit_code(), 0);
    assert_eq!(Termination::Interrupted.exit_code(), 0);
    assert_eq!(Termination::Usage.exit_code(), 1);
    assert_eq!(Termination::WatchFailure.exit_code(), 1);
    assert_eq!(Termination::SupervisorFailure(Failure::Spawn).exit_code(), 101);
    assert_eq!(Termination::SupervisorFailure(Failure::Signal).exit_code(), 101);
    assert_eq!(Termination::SupervisorFailure(Failure::Reap).exit_code(), 101);
    assert_eq!((EXIT_OK, EXIT_ERROR, EXIT_ABORT), (0, 1, 101));
}
