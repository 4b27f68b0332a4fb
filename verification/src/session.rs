//! The conversation with the compositor that creates a security context,
//! as a machine from the last reply to the next request.
//!
//! The caller performs each [`Action`] on the display connection, reports
//! its outcome as a [`Reply`], and receives the next action, until
//! [`Action::Finish`].

use vstd::prelude::*;
use vstd::string::*;

use crate::registry::ManagerGlobal;

verus! {

/// Why no security context was created.
#[derive(Clone, Copy, Debug, PartialEq, Eq, Structural)]
pub enum ContextError {
    ConnectFailed,
    ListenerFailed,
    ManagerMissing,
    BindFailed,
    CreateFailed,
}

/// The text shown for a failure.
pub open spec fn spec_context_message(e: ContextError) -> Seq<char> {
    match e {
        ContextError::ConnectFailed => "Cannot connect to Wayland display"@,
        ContextError::ListenerFailed => "Cannot add registry listener"@,
        ContextError::ManagerMissing => "Compositor does not expose wp_security_context_manager_v1"@,
        ContextError::BindFailed => "Cannot bind to wp_security_context_manager_v1"@,
        ContextError::CreateFailed => "Cannot create security context listener"@,
    }
}

impl ContextError {
    /// The text shown for this failure.
    pub fn message(&self) -> (r: &'static str)
        ensures
            r@ == spec_context_message(*self),
    {
        match self {
            ContextError::ConnectFailed => "Cannot connect to Wayland display",
            ContextError::ListenerFailed => "Cannot add registry listener",
            ContextError::ManagerMissing => "Compositor does not expose wp_security_context_manager_v1",
            ContextError::BindFailed => "Cannot bind to wp_security_context_manager_v1",
            ContextError::CreateFailed => "Cannot create security context listener",
        }
    }
}

/// What the security context is made of.
#[derive(Debug, PartialEq, Eq)]
pub struct ContextConfig {
    /// The socket the compositor is to accept clients on.
    pub listen_fd: i32,
    /// The compositor stops listening when this descriptor closes.
    pub close_fd: i32,
    pub sandbox_engine: Option<String>,
    pub app_id: Option<String>,
    pub instance_id: Option<String>,
}

/// The mathematical content of [`ContextConfig`].
pub struct ContextConfigView {
    pub listen_fd: i32,
    pub close_fd: i32,
    pub sandbox_engine: Option<Seq<char>>,
    pub app_id: Option<Seq<char>>,
    pub instance_id: Option<Seq<char>>,
}

impl View for ContextConfig {
    type V = ContextConfigView;

    open spec fn view(&self) -> ContextConfigView {
        ContextConfigView {
            listen_fd: self.listen_fd,
            close_fd: self.close_fd,
            sandbox_engine: crate::args::opt_chars(self.sandbox_engine),
            app_id: crate::args::opt_chars(self.app_id),
            instance_id: crate::args::opt_chars(self.instance_id),
        }
    }
}

/// A request for the caller to perform on the display connection.
#[derive(Debug, PartialEq, Eq)]
pub enum Action {
    /// Connect to the display; reply [`Reply::Connected`].
    Connect,
    /// Get the registry and install the global listener, its slot set to
    /// [`ManagerGlobal::unset`]; reply [`Reply::ListenerAdded`].
    ListenRegistry,
    /// Round-trip the display; reply [`Reply::Discovered`] with the slot.
    Roundtrip,
    /// Bind the manager global; reply [`Reply::Bound`].
    Bind { name: u32, version: u32 },
    /// Ask the manager for a context listening on `listen_fd`; reply
    /// [`Reply::Created`].
    CreateListener { listen_fd: i32, close_fd: i32 },
    /// Set the context's sandbox engine; reply [`Reply::Done`].
    SetSandboxEngine(String),
    /// Set the context's app id; reply [`Reply::Done`].
    SetAppId(String),
    /// Set the context's instance id; reply [`Reply::Done`].
    SetInstanceId(String),
    /// Commit the context; reply [`Reply::Done`].
    Commit,
    /// Destroy the context object; reply [`Reply::Done`].
    DestroyContext,
    /// Destroy the manager object; reply [`Reply::Done`].
    DestroyManager,
    /// Disconnect from the display; reply [`Reply::Done`].
    Disconnect,
    /// The conversation is over, with this result.
    Finish(Result<(), ContextError>),
}

/// The mathematical content of [`Action`].
pub enum ActionView {
    Connect,
    ListenRegistry,
    Roundtrip,
    Bind { name: u32, version: u32 },
    CreateListener { listen_fd: i32, close_fd: i32 },
    SetSandboxEngine(Seq<char>),
    SetAppId(Seq<char>),
    SetInstanceId(Seq<char>),
    Commit,
    DestroyContext,
    DestroyManager,
    Disconnect,
    Finish(Result<(), ContextError>),
}

impl View for Action {
    type V = ActionView;

    open spec fn view(&self) -> ActionView {
        match self {
            Action::Connect => ActionView::Connect,
            Action::ListenRegistry => ActionView::ListenRegistry,
            Action::Roundtrip => ActionView::Roundtrip,
            Action::Bind { name, version } => ActionView::Bind { name: *name, version: *version },
            Action::CreateListener { listen_fd, close_fd } => ActionView::CreateListener {
                listen_fd: *listen_fd,
                close_fd: *close_fd,
            },
            Action::SetSandboxEngine(s) => ActionView::SetSandboxEngine(s@),
            Action::SetAppId(s) => ActionView::SetAppId(s@),
            Action::SetInstanceId(s) => ActionView::SetInstanceId(s@),
            Action::Commit => ActionView::Commit,
            Action::DestroyContext => ActionView::DestroyContext,
            Action::DestroyManager => ActionView::DestroyManager,
            Action::Disconnect => ActionView::Disconnect,
            Action::Finish(r) => ActionView::Finish(*r),
        }
    }
}

/// The outcome of the last action.
#[derive(Clone, Copy, Debug, PartialEq, Eq, Structural)]
pub enum Reply {
    /// Whether the display connection was made.
    Connected(bool),
    /// Whether the registry listener was installed.
    ListenerAdded(bool),
    /// What the registry slot holds after the round trip.
    Discovered(ManagerGlobal),
    /// Whether binding the manager gave an object.
    Bound(bool),
    /// Whether the manager gave a context object.
    Created(bool),
    /// The request was sent.
    Done,
}

/// Where the conversation stands: which reply it awaits.
#[derive(Clone, Copy, Debug, PartialEq, Eq, Structural)]
pub enum Phase {
    Connecting,
    AddingListener,
    Discovering,
    Binding,
    Creating,
    /// The first `k` optional settings have been sent or skipped.
    Configuring(u8),
    Committing,
    DestroyingContext,
    DestroyingManager,
    FinalRoundtrip,
    /// The context could not be created; the manager is being destroyed.
    CleaningUp(ContextError),
    /// The context is made; the display is being disconnected.
    Disconnecting,
    /// The display is being disconnected after this failure.
    Abandoning(ContextError),
    Finished,
}

/// The replies that fit the action a phase was entered with.
pub open spec fn spec_accepts(phase: Phase, reply: Reply) -> bool {
    match phase {
        Phase::Connecting => reply is Connected,
        Phase::AddingListener => reply is ListenerAdded,
        Phase::Discovering => reply is Discovered,
        Phase::Binding => reply is Bound,
        Phase::Creating => reply is Created,
        Phase::FinalRoundtrip => reply is Discovered,
        Phase::Finished => false,
        _ => reply is Done,
    }
}

/// The version the manager is bound at: the advertised one, at most 1.
pub open spec fn bind_version(advertised: u32) -> u32 {
    if advertised < 1 {
        advertised
    } else {
        1
    }
}

/// After the first `k` optional settings: send the next one that is set, or
/// commit when none is left.
pub open spec fn spec_next_setting(config: ContextConfigView, k: u8) -> (Phase, ActionView)
    decreases 3 - k,
{
    if k == 0 {
        match config.sandbox_engine {
            Some(s) => (Phase::Configuring(1), ActionView::SetSandboxEngine(s)),
            None => spec_next_setting(config, 1),
        }
    } else if k == 1 {
        match config.app_id {
            Some(s) => (Phase::Configuring(2), ActionView::SetAppId(s)),
            None => spec_next_setting(config, 2),
        }
    } else if k == 2 {
        match config.instance_id {
            Some(s) => (Phase::Configuring(3), ActionView::SetInstanceId(s)),
            None => (Phase::Committing, ActionView::Commit),
        }
    } else {
        (Phase::Committing, ActionView::Commit)
    }
}

/// One step of the conversation: from the phase and the reply to the last
/// action, the next phase and action.
pub open spec fn spec_step(config: ContextConfigView, phase: Phase, reply: Reply) -> (
    Phase,
    ActionView,
) {
    match (phase, reply) {
        (Phase::Connecting, Reply::Connected(ok)) => if ok {
            (Phase::AddingListener, ActionView::ListenRegistry)
        } else {
            (Phase::Finished, ActionView::Finish(Err(ContextError::ConnectFailed)))
        },
        (Phase::AddingListener, Reply::ListenerAdded(ok)) => if ok {
            (Phase::Discovering, ActionView::Roundtrip)
        } else {
            (Phase::Abandoning(ContextError::ListenerFailed), ActionView::Disconnect)
        },
        (Phase::Discovering, Reply::Discovered(g)) => if g.name == 0 {
            (Phase::Abandoning(ContextError::ManagerMissing), ActionView::Disconnect)
        } else {
            (Phase::Binding, ActionView::Bind { name: g.name, version: bind_version(g.version) })
        },
        (Phase::Binding, Reply::Bound(ok)) => if ok {
            (
                Phase::Creating,
                ActionView::CreateListener { listen_fd: config.listen_fd, close_fd: config.close_fd },
            )
        } else {
            (Phase::Abandoning(ContextError::BindFailed), ActionView::Disconnect)
        },
        (Phase::Creating, Reply::Created(ok)) => if ok {
            spec_next_setting(config, 0)
        } else {
            (Phase::CleaningUp(ContextError::CreateFailed), ActionView::DestroyManager)
        },
        (Phase::Configuring(k), Reply::Done) => spec_next_setting(config, k),
        (Phase::Committing, Reply::Done) => (Phase::DestroyingContext, ActionView::DestroyContext),
        (Phase::DestroyingContext, Reply::Done) => (
            Phase::DestroyingManager,
            ActionView::DestroyManager,
        ),
        (Phase::DestroyingManager, Reply::Done) => (Phase::FinalRoundtrip, ActionView::Roundtrip),
        (Phase::FinalRoundtrip, Reply::Discovered(_)) => (
            Phase::Disconnecting,
            ActionView::Disconnect,
        ),
        (Phase::CleaningUp(e), Reply::Done) => (Phase::Abandoning(e), ActionView::Disconnect),
        (Phase::Disconnecting, Reply::Done) => (Phase::Finished, ActionView::Finish(Ok(()))),
        (Phase::Abandoning(e), Reply::Done) => (Phase::Finished, ActionView::Finish(Err(e))),
        // a reply that does not fit the phase; `advance` never takes one
        _ => (Phase::Finished, ActionView::Finish(Err(ContextError::ConnectFailed))),
    }
}

/// A conversation in progress.
pub struct ContextSession {
    pub config: ContextConfig,
    pub phase: Phase,
}

impl ContextSession {
    /// Opens the conversation; the first action is always to connect.
    pub fn start(config: ContextConfig) -> (r: (ContextSession, Action))
        ensures
            r.0.config@ == config@,
            r.0.phase == Phase::Connecting,
            r.1@ == ActionView::Connect,
    {
        (ContextSession { config, phase: Phase::Connecting }, Action::Connect)
    }

    /// Whether `reply` fits the action last handed out.
    pub fn accepts(&self, reply: Reply) -> (r: bool)
        ensures
            r == spec_accepts(self.phase, reply),
    {
        match self.phase {
            Phase::Connecting => matches!(reply, Reply::Connected(_)),
            Phase::AddingListener => matches!(reply, Reply::ListenerAdded(_)),
            Phase::Discovering => matches!(reply, Reply::Discovered(_)),
            Phase::Binding => matches!(reply, Reply::Bound(_)),
            Phase::Creating => matches!(reply, Reply::Created(_)),
            Phase::FinalRoundtrip => matches!(reply, Reply::Discovered(_)),
            Phase::Finished => false,
            _ => matches!(reply, Reply::Done),
        }
    }

    fn next_setting(&self, k: u8) -> (r: (Phase, Action))
        ensures
            (r.0, r.1@) == spec_next_setting(self.config@, k),
        decreases 3 - k,
    {
        if k == 0 {
            match &self.config.sandbox_engine {
                Some(s) => (Phase::Configuring(1), Action::SetSandboxEngine(s.clone())),
                None => self.next_setting(1),
            }
        } else if k == 1 {
            match &self.config.app_id {
                Some(s) => (Phase::Configuring(2), Action::SetAppId(s.clone())),
                None => self.next_setting(2),
            }
        } else if k == 2 {
            match &self.config.instance_id {
                Some(s) => (Phase::Configuring(3), Action::SetInstanceId(s.clone())),
                None => (Phase::Committing, Action::Commit),
            }
        } else {
            (Phase::Committing, Action::Commit)
        }
    }

    /// Takes the outcome of the last action and hands out the next one.
    pub fn advance(&mut self, reply: Reply) -> (r: Action)
        requires
            spec_accepts(old(self).phase, reply),
        ensures
            final(self).config@ == old(self).config@,
            (final(self).phase, r@) == spec_step(old(self).config@, old(self).phase, reply),
    {
        let (phase, action) = match (self.phase, reply) {
            (Phase::Connecting, Reply::Connected(ok)) => if ok {
                (Phase::AddingListener, Action::ListenRegistry)
            } else {
                (Phase::Finished, Action::Finish(Err(ContextError::ConnectFailed)))
            },
            (Phase::AddingListener, Reply::ListenerAdded(ok)) => if ok {
                (Phase::Discovering, Action::Roundtrip)
            } else {
                (Phase::Abandoning(ContextError::ListenerFailed), Action::Disconnect)
            },
            (Phase::Discovering, Reply::Discovered(g)) => if g.name == 0 {
                (Phase::Abandoning(ContextError::ManagerMissing), Action::Disconnect)
            } else {
                let version = if g.version < 1 {
                    g.version
                } else {
                    1
                };
                (Phase::Binding, Action::Bind { name: g.name, version })
            },
            (Phase::Binding, Reply::Bound(ok)) => if ok {
                (
                    Phase::Creating,
                    Action::CreateListener {
                        listen_fd: self.config.listen_fd,
                        close_fd: self.config.close_fd,
                    },
                )
            } else {
                (Phase::Abandoning(ContextError::BindFailed), Action::Disconnect)
            },
            (Phase::Creating, Reply::Created(ok)) => if ok {
                self.next_setting(0)
            } else {
                (Phase::CleaningUp(ContextError::CreateFailed), Action::DestroyManager)
            },
            (Phase::Configuring(k), Reply::Done) => self.next_setting(k),
            (Phase::Committing, Reply::Done) => (Phase::DestroyingContext, Action::DestroyContext),
            (Phase::DestroyingContext, Reply::Done) => (
                Phase::DestroyingManager,
                Action::DestroyManager,
            ),
            (Phase::DestroyingManager, Reply::Done) => (Phase::FinalRoundtrip, Action::Roundtrip),
            (Phase::FinalRoundtrip, Reply::Discovered(_)) => (
                Phase::Disconnecting,
                Action::Disconnect,
            ),
            (Phase::CleaningUp(e), Reply::Done) => (
                Phase::Abandoning(e),
                Action::Disconnect,
            ),
            (Phase::Disconnecting, Reply::Done) => (Phase::Finished, Action::Finish(Ok(()))),
            (Phase::Abandoning(e), Reply::Done) => (Phase::Finished, Action::Finish(Err(e))),
            _ => (Phase::Finished, Action::Finish(Err(ContextError::ConnectFailed))),
        };
        self.phase = phase;
        action
    }
}

} // verus!
