use wl_container::registry::{manager_interface, observe_global, ManagerGlobal};
use wl_container::session::{Action, ContextConfig, ContextError, ContextSession, Phase, Reply};

struct Compositor {
    connected: bool,
    listener_added: bool,
    manager: ManagerGlobal,
    bound: bool,
    created: bool,
}

fn good() -> Compositor {
    Compositor {
        connected: true,
        listener_added: true,
        manager: ManagerGlobal { name: 9, version: 3 },
        bound: true,
        created: true,
    }
}

fn config(engine: Option<&str>, app: Option<&str>, instance: Option<&str>) -> ContextConfig {
    ContextConfig {
        listen_fd: 10,
        close_fd: 11,
        sandbox_engine: engine.map(|s| s.to_string()),
        app_id: app.map(|s| s.to_string()),
        instance_id: instance.map(|s| s.to_string()),
    }
}

/// Drives a session against a scripted compositor and returns every action.
fn drive(cfg: ContextConfig, c: &Compositor) -> Vec<Action> {
    let (mut session, mut action) = ContextSession::start(cfg);
    let mut all = Vec::new();
    loop {
        let reply = match &action {
            Action::Connect => Reply::Connected(c.connected),
            Action::ListenRegistry => Reply::ListenerAdded(c.listener_added),
            Action::Roundtrip => Reply::Discovered(c.manager),
            Action::Bind { .. } => Reply::Bound(c.bound),
            Action::CreateListener { .. } => Reply::Created(c.created),
            Action::Finish(_) => {
                all.push(action);
                assert_eq!(session.phase, Phase::Finished);
                return all;
            },
            _ => Reply::Done,
        };
        assert!(session.accepts(reply));
        all.push(action);
        action = session.advance(reply);
        assert!(all.len() < 20);
    }
}

#[test]
fn success_sends_every_setting_in_order() {
    let acts = drive(config(Some("flatpak"), Some("org.x"), Some("i1")), &good());
    assert_eq!(
        acts,
        vec![
            Action::Connect,
            Action::ListenRegistry,
            Action::Roundtrip,
            Action::Bind { name: 9, version: 1 },
            Action::CreateListener { listen_fd: 10, close_fd: 11 },
            Action::SetSandboxEngine("flatpak".to_string()),
            Action::SetAppId("org.x".to_string()),
            Action::SetInstanceId("i1".to_string()),
            Action::Commit,
            Action::DestroyContext,
            Action::DestroyManager,
            Action::Roundtrip,
            Action::Disconnect,
            Action::Finish(Ok(())),
        ]
    );
}

#[test]
fn settings_that_are_absent_are_skipped() {
    let acts = drive(config(None, Some("org.x"), None), &good());
    assert_eq!(acts[5], Action::SetAppId("org.x".to_string()));
    assert_eq!(acts[6], Action::Commit);
    let bare = drive(config(None, None, None), &good());
    assert_eq!(bare[5], Action::Commit);
    assert_eq!(bare.len(), 11);
    let last = drive(config(None, None, Some("i")), &good());
    assert_eq!(last[5], Action::SetInstanceId("i".to_string()));
}

#[test]
fn bind_version_is_capped_at_one() {
    let mut c = good();
    c.manager = ManagerGlobal { name: 4, version: 0 };
    assert_eq!(drive(config(None, None, None), &c)[3], Action::Bind { name: 4, version: 0 });
    c.manager = ManagerGlobal { name: 4, version: 1 };
    assert_eq!(drive(config(None, None, None), &c)[3], Action::Bind { name: 4, version: 1 });
    c.manager = ManagerGlobal { name: 4, version: u32::MAX };
    assert_eq!(drive(config(None, None, None), &c)[3], Action::Bind { name: 4, version: 1 });
}

#[test]
fn connect_failure_ends_at_once() {
    let mut c = good();
    c.connected = false;
    let acts = drive(config(None, None, None), &c);
    assert_eq!(acts, vec![Action::Connect, Action::Finish(Err(ContextError::ConnectFailed))]);
    assert_eq!(ContextError::ConnectFailed.message(), "Cannot connect to Wayland display");
}

#[test]
fn listener_failure_disconnects() {
    let mut c = good();
    c.listener_added = false;
    let acts = drive(config(None, None, None), &c);
    assert_eq!(
        acts,
        vec![
            Action::Connect,
            Action::ListenRegistry,
            Action::Disconnect,
            Action::Finish(Err(ContextError::ListenerFailed)),
        ]
    );
    assert_eq!(ContextError::ListenerFailed.message(), "Cannot add registry listener");
}

#[test]
fn missing_manager_disconnects() {
    let mut c = good();
    c.manager = ManagerGlobal::unset();
    let acts = drive(config(Some("e"), None, None), &c);
    assert_eq!(
        acts,
        vec![
            Action::Connect,
            Action::ListenRegistry,
            Action::Roundtrip,
            Action::Disconnect,
            Action::Finish(Err(ContextError::ManagerMissing)),
        ]
    );
    assert_eq!(
        ContextError::ManagerMissing.message(),
        "Compositor does not expose wp_security_context_manager_v1"
    );
}

#[test]
fn bind_failure_disconnects() {
    let mut c = good();
    c.bound = false;
    let acts = drive(config(None, None, None), &c);
    assert_eq!(acts[4], Action::Disconnect);
    assert_eq!(acts[5], Action::Finish(Err(ContextError::BindFailed)));
    assert_eq!(acts.len(), 6);
    assert_eq!(ContextError::BindFailed.message(), "Cannot bind to wp_security_context_manager_v1");
}

#[test]
fn create_failure_destroys_the_manager_then_disconnects() {
    let mut c = good();
    c.created = false;
    let acts = drive(config(Some("e"), Some("a"), Some("i")), &c);
    assert_eq!(acts.len(), 8);
    assert_eq!(acts[4], Action::CreateListener { listen_fd: 10, close_fd: 11 });
    assert_eq!(acts[5], Action::DestroyManager);
    assert_eq!(acts[6], Action::Disconnect);
    assert_eq!(acts[7], Action::Finish(Err(ContextError::CreateFailed)));
    assert_eq!(ContextError::CreateFailed.message(), "Cannot create security context listener");
}

#[test]
fn mismatched_replies_are_not_accepted() {
    let (mut s, _) = ContextSession::start(config(None, None, None));
    assert!(!s.accepts(Reply::Done));
    assert!(!s.accepts(Reply::Bound(true)));
    assert!(s.accepts(Reply::Connected(false)));
    let a = s.advance(Reply::Connected(false));
    assert_eq!(a, Action::Finish(Err(ContextError::ConnectFailed)));
    assert!(!s.accepts(Reply::Done));
    assert!(!s.accepts(Reply::Connected(true)));
}

#[test]
fn registry_globals_are_recorded_only_for_the_manager() {
    let mut slot = ManagerGlobal::unset();
    assert!(!slot.is_advertised());
    observe_global(&mut slot, 3, Some("wl_compositor"), 6);
    assert_eq!(slot, ManagerGlobal { name: 0, version: 0 });
    observe_global(&mut slot, 7, Some("wp_security_context_manager_v1"), 1);
    assert_eq!(slot, ManagerGlobal { name: 7, version: 1 });
    assert!(slot.is_advertised());
    observe_global(&mut slot, 8, None, 2);
    assert_eq!(slot, ManagerGlobal { name: 7, version: 1 });
    observe_global(&mut slot, 12, Some("wp_security_context_manager_v1"), 2);
    assert_eq!(slot, ManagerGlobal { name: 12, version: 2 });
    observe_global(&mut slot, 13, Some("wp_security_context_manager_v"), 2);
    assert_eq!(slot.name, 12);
    assert_eq!(manager_interface(), "wp_security_context_manager_v1");
}
