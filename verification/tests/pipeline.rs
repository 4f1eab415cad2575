use env_file::{finish_read, resolve_path, EnvFileError, EnvVarCause, IoCause};

fn env_cause(message: &str) -> EnvVarCause {
    EnvVarCause { message: message.to_string() }
}

fn io_cause(message: &str) -> IoCause {
    IoCause { message: message.to_string() }
}

#[test]
fn missing_variable_is_env_var_error() {
    let lookup: Result<String, EnvVarCause> = Err(env_cause("environment variable not found"));
    let r = resolve_path(lookup);
    match r {
        Err(EnvFileError::EnvVarError(c)) => {
            assert_eq!(c.message, "environment variable not found");
        }
        other => panic!("expected an environment-variable error, got {:?}", other),
    }
}

#[test]
fn successful_lookup_hands_path_on_unchanged() {
    let lookup: Result<String, EnvVarCause> = Ok("/tmp/secret123".to_string());
    let r = resolve_path(lookup);
    assert_eq!(r, Ok("/tmp/secret123".to_string()));
}

#[test]
fn unopenable_path_is_io_error() {
    let lookup: Result<String, EnvVarCause> = Ok("/tmp/does-not-exist-xyz".to_string());
    let path = resolve_path(lookup).expect("a successful lookup must hand the path on");
    assert_eq!(path, "/tmp/does-not-exist-xyz");
    let outcome: Result<String, IoCause> = Err(io_cause("No such file or directory (os error 2)"));
    let r = finish_read(outcome);
    match r {
        Err(EnvFileError::Io(c)) => {
            assert_eq!(c.message, "No such file or directory (os error 2)");
        }
        other => panic!("expected an i/o error, got {:?}", other),
    }
}

#[test]
fn successful_read_returns_text() {
    let lookup: Result<String, EnvVarCause> = Ok("/tmp/secret123".to_string());
    let path = resolve_path(lookup).expect("a successful lookup must hand the path on");
    assert_eq!(path, "/tmp/secret123");
    let outcome: Result<String, IoCause> = Ok("hello-secret".to_string());
    let r = finish_read(outcome);
    assert_eq!(r, Ok("hello-secret".to_string()));
}

#[test]
fn trailing_newline_is_preserved() {
    let outcome: Result<String, IoCause> = Ok("line one\nline two\n".to_string());
    let r = finish_read(outcome);
    assert_eq!(r, Ok("line one\nline two\n".to_string()));
}

#[test]
fn embedded_whitespace_is_preserved() {
    let text = "  spaced\tout \n\n ".to_string();
    let r = finish_read(Ok(text.clone()));
    assert_eq!(r, Ok(text));
}

#[test]
fn empty_file_reads_as_empty_text() {
    let r = finish_read(Ok(String::new()));
    assert_eq!(r, Ok(String::new()));
}

#[test]
fn repeated_read_decides_alike() {
    let first = resolve_path(Ok("/etc/secrets/api.key".to_string()));
    let second = resolve_path(Ok("/etc/secrets/api.key".to_string()));
    assert_eq!(first, second);
    let first_text = finish_read(Ok("key-material\n".to_string()));
    let second_text = finish_read(Ok("key-material\n".to_string()));
    assert_eq!(first_text, second_text);
    let first_err = finish_read(Err(io_cause("Permission denied (os error 13)")));
    let second_err = finish_read(Err(io_cause("Permission denied (os error 13)")));
    assert_eq!(first_err, second_err);
}

#[test]
fn message_names_the_env_var_category() {
    let e = EnvFileError::EnvVarError(env_cause("environment variable not found"));
    assert_eq!(e.message(), "environment variable error: environment variable not found");
}

#[test]
fn message_names_the_io_category() {
    let e = EnvFileError::Io(io_cause("No such file or directory (os error 2)"));
    assert_eq!(e.message(), "i/o error: No such file or directory (os error 2)");
}

#[test]
fn description_is_the_cause_message() {
    let env_err = EnvFileError::EnvVarError(env_cause("environment variable not found"));
    assert_eq!(env_err.description(), "environment variable not found");
    let io_err = EnvFileError::Io(io_cause("Is a directory (os error 21)"));
    assert_eq!(io_err.description(), "Is a directory (os error 21)");
}

#[test]
fn cause_exposes_the_underlying_message() {
    let env_err = EnvFileError::EnvVarError(env_cause("environment variable not found"));
    assert_eq!(env_err.cause(), Some(&"environment variable not found".to_string()));
    let io_err = EnvFileError::Io(io_cause("Interrupted system call (os error 4)"));
    assert_eq!(io_err.cause(), Some(&"Interrupted system call (os error 4)".to_string()));
}

#[test]
fn from_env_cause_picks_the_env_var_variant() {
    let e = EnvFileError::from(env_cause("environment variable was not valid unicode"));
    assert!(matches!(e, EnvFileError::EnvVarError(_)));
}

#[test]
fn from_io_cause_picks_the_io_variant() {
    let e = EnvFileError::from(io_cause("Permission denied (os error 13)"));
    assert!(matches!(e, EnvFileError::Io(_)));
}
