use wl_container::args::{
    parse_args, usage, ArgError, Args, Opt, ParseOutcome, TextField,
};
use wl_container::number::parse_fd;

fn argv(items: &[&str]) -> Vec<String> {
    let mut v = vec!["wl-container".to_string()];
    for s in items {
        v.push(s.to_string());
    }
    v
}

fn run(items: &[&str]) -> Args {
    match parse_args(&argv(items)) {
        Ok(ParseOutcome::Run(a)) => a,
        other => panic!("expected settings, got {:?}", other),
    }
}

fn refusal(items: &[&str]) -> ArgError {
    match parse_args(&argv(items)) {
        Err(e) => e,
        other => panic!("expected a refusal, got {:?}", other),
    }
}

#[test]
fn no_options_give_default_settings() {
    assert_eq!(run(&[]), Args::default());
    assert_eq!(Args::default().socket_fd, None);
    assert_eq!(Args::default().close_fd, None);
}

#[test]
fn every_option_is_read_in_short_and_long_form() {
    let a = run(&["-s", "3", "-e", "flatpak", "-a", "org.example", "-i", "42", "-c", "5", "-r", "6"]);
    assert_eq!(a.socket_fd, Some(3));
    assert_eq!(a.sandbox_engine.as_deref(), Some("flatpak"));
    assert_eq!(a.app_id.as_deref(), Some("org.example"));
    assert_eq!(a.instance_id.as_deref(), Some("42"));
    assert_eq!(a.close_fd, Some(5));
    assert_eq!(a.ready_fd, Some(6));
    assert_eq!(a.socket_path, None);

    let b = run(&[
        "--socket-path",
        "/run/app.sock",
        "--sandbox-engine",
        "bwrap",
        "--app-id",
        "id",
        "--instance-id",
        "x",
        "--close-fd",
        "7",
        "--ready-fd",
        "8",
    ]);
    assert_eq!(b.socket_path.as_deref(), Some("/run/app.sock"));
    assert_eq!(b.sandbox_engine.as_deref(), Some("bwrap"));
    assert_eq!(b.app_id.as_deref(), Some("id"));
    assert_eq!(b.instance_id.as_deref(), Some("x"));
    assert_eq!(b.close_fd, Some(7));
    assert_eq!(b.ready_fd, Some(8));
    assert_eq!(b.socket_fd, None);
}

#[test]
fn help_stops_reading() {
    assert_eq!(parse_args(&argv(&["-h"])).unwrap(), ParseOutcome::Help);
    assert_eq!(parse_args(&argv(&["-s", "3", "--help", "junk"])).unwrap(), ParseOutcome::Help);
}

#[test]
fn an_error_before_help_is_reported() {
    assert_eq!(refusal(&["junk", "-h"]).message(), "unexpected positional argument: junk");
}

#[test]
fn a_later_value_replaces_an_earlier_one() {
    let a = run(&["-a", "first", "--app-id", "second", "-s", "1", "-s", "2"]);
    assert_eq!(a.app_id.as_deref(), Some("second"));
    assert_eq!(a.socket_fd, Some(2));
}

#[test]
fn missing_values_are_refused() {
    let e = refusal(&["-s"]);
    assert_eq!(e, ArgError::MissingValue(Opt::SocketFd));
    assert_eq!(e.message(), "--socket-fd requires a value");
    assert_eq!(refusal(&["-S"]).message(), "--socket-path requires a value");
    assert_eq!(refusal(&["-e"]).message(), "--sandbox-engine requires a value");
    assert_eq!(refusal(&["-a"]).message(), "--app-id requires a value");
    assert_eq!(refusal(&["-i"]).message(), "--instance-id requires a value");
    assert_eq!(refusal(&["-c"]).message(), "--close-fd requires a value");
    assert_eq!(refusal(&["--ready-fd"]).message(), "--ready-fd requires a value");
}

#[test]
fn bad_fd_values_are_refused() {
    assert_eq!(refusal(&["-s", "abc"]), ArgError::InvalidFd);
    assert_eq!(refusal(&["-c", ""]).message(), "invalid fd");
    assert_eq!(refusal(&["-r", "99999999999"]).message(), "invalid fd");
    // an option's value is taken as it stands, even when it looks like an option
    assert_eq!(refusal(&["-s", "-h"]), ArgError::InvalidFd);
}

#[test]
fn nul_in_texts_is_refused() {
    let e = refusal(&["-e", "a\0b"]);
    assert_eq!(e, ArgError::NulByte(TextField::SandboxEngine));
    assert_eq!(e.message(), "engine name contains null byte");
    assert_eq!(refusal(&["-a", "\0"]).message(), "app-id contains null byte");
    assert_eq!(refusal(&["-i", "x\0"]).message(), "instance-id contains null byte");
    // a path may hold anything
    assert_eq!(run(&["-S", "a\0b"]).socket_path.as_deref(), Some("a\0b"));
}

#[test]
fn unknown_arguments_are_refused() {
    let e = refusal(&["-x"]);
    assert_eq!(e, ArgError::UnexpectedArgument("-x".to_string()));
    assert_eq!(e.message(), "unexpected argument: -x");
    assert_eq!(refusal(&["--socket"]).message(), "unexpected argument: --socket");
    assert_eq!(refusal(&["-"]).message(), "unexpected argument: -");
    let p = refusal(&["-s", "1", "file"]);
    assert_eq!(p, ArgError::UnexpectedPositional("file".to_string()));
    assert_eq!(p.message(), "unexpected positional argument: file");
    assert_eq!(refusal(&[""]).message(), "unexpected positional argument: ");
}

#[test]
fn validate_wants_exactly_one_socket() {
    assert!(run(&["-s", "3"]).validate().is_ok());
    assert!(run(&["-S", "/tmp/s"]).validate().is_ok());
    let none = run(&["-e", "x"]).validate().unwrap_err();
    assert_eq!(none, ArgError::NoSocket);
    assert_eq!(none.message(), "No socket fd or socket path specified");
    let both = run(&["-s", "3", "-S", "/tmp/s"]).validate().unwrap_err();
    assert_eq!(both, ArgError::BothSockets);
    assert_eq!(both.message(), "Cannot use both socket fd and socket path");
}

#[test]
fn fd_numbers_parse_as_i32() {
    assert_eq!(parse_fd("0"), Some(0));
    assert_eq!(parse_fd("42"), Some(42));
    assert_eq!(parse_fd("-0"), Some(0));
    assert_eq!(parse_fd("+5"), Some(5));
    assert_eq!(parse_fd("007"), Some(7));
    assert_eq!(parse_fd("-7"), Some(-7));
    assert_eq!(parse_fd("2147483647"), Some(i32::MAX));
    assert_eq!(parse_fd("-2147483648"), Some(i32::MIN));
    assert_eq!(parse_fd("2147483648"), None);
    assert_eq!(parse_fd("-2147483649"), None);
    assert_eq!(parse_fd("99999999999999999999"), None);
    assert_eq!(parse_fd(""), None);
    assert_eq!(parse_fd("-"), None);
    assert_eq!(parse_fd("+"), None);
    assert_eq!(parse_fd("+-1"), None);
    assert_eq!(parse_fd("1a"), None);
    assert_eq!(parse_fd(" 1"), None);
    assert_eq!(parse_fd("\u{663}"), None);
}

#[test]
fn fd_parsing_agrees_with_std() {
    for s in ["12", "-12", "+12", "", "-", "x", "2147483647", "2147483648", "-2147483648", "-2147483649", "1_0", "٣"] {
        assert_eq!(parse_fd(s), s.parse::<i32>().ok(), "{:?}", s);
    }
}

#[test]
fn usage_text_is_the_help_text() {
    let u = usage();
    assert!(u.starts_with("Usage: wl-container [OPTIONS] --socket-fd SOCKET_FD\n"));
    assert!(u.contains("\t-h           Show help and exit\n"));
    assert!(u.ends_with("See 'man wl-container' for details."));
}
