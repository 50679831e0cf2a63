use watch_run::config::{ConfigError, WatchConfig};

#[test]
fn builds_primary_only() {
    let c = WatchConfig::build("main.c", "gcc -c {}", None, true, false).unwrap();
    assert_eq!(c.watch_path, "main.c");
    assert_eq!(c.command_text, "gcc -c main.c");
    assert_eq!(c.primary_command.program, "gcc");
    assert_eq!(c.primary_command.args, vec!["-c", "main.c"]);
    assert!(c.companion_command.is_none());
    assert!(c.show_output);
    assert!(!c.debug);
}

#[test]
fn builds_with_companion() {
    let c = WatchConfig::build("site", "make", Some("serve {} --port 8000"), false, true).unwrap();
    let comp = c.companion_command.unwrap();
    assert_eq!(comp.program, "serve");
    assert_eq!(comp.args, vec!["site", "--port", "8000"]);
    assert!(c.debug);
}

#[test]
fn empty_command_is_refused() {
    assert_eq!(WatchConfig::build("f", "", None, false, false).unwrap_err(), ConfigError::EmptyCommand);
    assert_eq!(
        WatchConfig::build("", " {} ", Some("ls"), false, false).unwrap_err(),
        ConfigError::EmptyCommand
    );
}

#[test]
fn empty_companion_is_refused() {
    assert_eq!(
        WatchConfig::build("f", "ls", Some(" \t"), false, false).unwrap_err(),
        ConfigError::EmptyCompanion
    );
}

#[test]
fn program_can_come_from_filename() {
    let c = WatchConfig::build("./run.sh", "{} x", None, false, false).unwrap();
    assert_eq!(c.primary_command.program, "./run.sh");
    // An empty filename leaves the next token as the program.
    let c = WatchConfig::build("", "{} x", None, false, false).unwrap();
    assert_eq!(c.primary_command.program, "x");
    assert!(c.primary_command.args.is_empty());
}

#[test]
fn double_space_gives_no_empty_argument() {
    let c = WatchConfig::build("x", "a  b", None, false, false).unwrap();
    assert_eq!(c.primary_command.program, "a");
    assert_eq!(c.primary_command.args, vec!["b"]);
}
