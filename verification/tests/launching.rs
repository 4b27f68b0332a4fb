use wl_container::args::{parse_args, ArgError, ParseOutcome};
use wl_container::launch::{plan_launch, CloseSource, ListenSource};

fn args(items: &[&str]) -> wl_container::args::Args {
    let mut v = vec!["wl-container".to_string()];
    v.extend(items.iter().map(|s| s.to_string()));
    match parse_args(&v) {
        Ok(ParseOutcome::Run(a)) => a,
        other => panic!("{:?}", other),
    }
}

#[test]
fn plan_with_fd_and_close_fd_does_not_stay_alive() {
    let p = plan_launch(args(&["-s", "3", "-c", "4", "-r", "5", "-a", "app"])).unwrap();
    assert_eq!(p.listen, ListenSource::Fd(3));
    assert_eq!(p.close, CloseSource::Fd(4));
    assert_eq!(p.ready_fd, Some(5));
    assert!(!p.stays_alive());
    let cfg = p.into_context_config(3, 4);
    assert_eq!(cfg.listen_fd, 3);
    assert_eq!(cfg.close_fd, 4);
    assert_eq!(cfg.app_id.as_deref(), Some("app"));
    assert_eq!(cfg.sandbox_engine, None);
}

#[test]
fn plan_without_close_fd_keeps_a_pipe_and_stays_alive() {
    let p = plan_launch(args(&["-S", "/run/s", "-e", "bwrap", "-i", "7"])).unwrap();
    assert_eq!(p.listen, ListenSource::Path("/run/s".to_string()));
    assert_eq!(p.close, CloseSource::KeepAlivePipe);
    assert_eq!(p.ready_fd, None);
    assert!(p.stays_alive());
    let cfg = p.into_context_config(20, 21);
    assert_eq!(cfg.sandbox_engine.as_deref(), Some("bwrap"));
    assert_eq!(cfg.instance_id.as_deref(), Some("7"));
}

#[test]
fn plan_refuses_what_validate_refuses() {
    assert_eq!(plan_launch(args(&[])).unwrap_err(), ArgError::NoSocket);
    assert_eq!(plan_launch(args(&["-s", "1", "-S", "p"])).unwrap_err(), ArgError::BothSockets);
}
