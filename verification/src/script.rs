//! The whole conversation at once: for given outcomes of the compositor's
//! calls, the sequence of actions the machine in [`crate::session`] hands
//! out, and the laws it keeps.

use vstd::prelude::*;

use crate::registry::ManagerGlobal;
use crate::session::{
    bind_version, spec_accepts, spec_next_setting, spec_step, ActionView, ContextConfigView, ContextError, Phase, Reply,
};

verus! {

/// How each fallible call on the display connection turns out.
pub struct Outcomes {
    pub connected: bool,
    pub listener_added: bool,
    /// What the registry slot holds after a round trip.
    pub manager: ManagerGlobal,
    pub bound: bool,
    pub created: bool,
}

/// The reply a caller reports after performing `a`.
pub open spec fn reply_for(a: ActionView, o: Outcomes) -> Reply {
    match a {
        ActionView::Connect => Reply::Connected(o.connected),
        ActionView::ListenRegistry => Reply::ListenerAdded(o.listener_added),
        ActionView::Roundtrip => Reply::Discovered(o.manager),
        ActionView::Bind { .. } => Reply::Bound(o.bound),
        ActionView::CreateListener { .. } => Reply::Created(o.created),
        _ => Reply::Done,
    }
}

/// The actions handed out from `action`, entered with `phase`, on: each is
/// performed and answered by [`reply_for`], for at most `fuel` steps.
pub open spec fn trace_from(
    config: ContextConfigView,
    phase: Phase,
    action: ActionView,
    o: Outcomes,
    fuel: nat,
) -> Seq<ActionView>
    decreases fuel,
{
    if fuel == 0 || action is Finish {
        seq![action]
    } else {
        let (p, a) = spec_step(config, phase, reply_for(action, o));
        seq![action] + trace_from(config, p, a, o, (fuel - 1) as nat)
    }
}

/// The whole conversation, from [`ContextSession::start`] on.
pub open spec fn session_trace(config: ContextConfigView, o: Outcomes) -> Seq<ActionView> {
    trace_from(config, Phase::Connecting, ActionView::Connect, o, 16)
}

/// The optional settings that are set, in their order.
pub open spec fn settings_script(config: ContextConfigView) -> Seq<ActionView> {
    (match config.sandbox_engine {
        Some(s) => seq![ActionView::SetSandboxEngine(s)],
        None => Seq::empty(),
    }) + (match config.app_id {
        Some(s) => seq![ActionView::SetAppId(s)],
        None => Seq::empty(),
    }) + (match config.instance_id {
        Some(s) => seq![ActionView::SetInstanceId(s)],
        None => Seq::empty(),
    })
}

/// The conversation written out for each way it can go.
pub open spec fn expected_script(config: ContextConfigView, o: Outcomes) -> Seq<ActionView> {
    let bind = ActionView::Bind { name: o.manager.name, version: bind_version(o.manager.version) };
    let create = ActionView::CreateListener {
        listen_fd: config.listen_fd,
        close_fd: config.close_fd,
    };
    if !o.connected {
        seq![ActionView::Connect, ActionView::Finish(Err(ContextError::ConnectFailed))]
    } else if !o.listener_added {
        seq![
            ActionView::Connect,
            ActionView::ListenRegistry,
            ActionView::Disconnect,
            ActionView::Finish(Err(ContextError::ListenerFailed)),
        ]
    } else if o.manager.name == 0 {
        seq![
            ActionView::Connect,
            ActionView::ListenRegistry,
            ActionView::Roundtrip,
            ActionView::Disconnect,
            ActionView::Finish(Err(ContextError::ManagerMissing)),
        ]
    } else if !o.bound {
        seq![
            ActionView::Connect,
            ActionView::ListenRegistry,
            ActionView::Roundtrip,
            bind,
            ActionView::Disconnect,
            ActionView::Finish(Err(ContextError::BindFailed)),
        ]
    } else if !o.created {
        seq![
            ActionView::Connect,
            ActionView::ListenRegistry,
            ActionView::Roundtrip,
            bind,
            create,
            ActionView::DestroyManager,
            ActionView::Disconnect,
            ActionView::Finish(Err(ContextError::CreateFailed)),
        ]
    } else {
        seq![ActionView::Connect, ActionView::ListenRegistry, ActionView::Roundtrip, bind, create]
            + settings_script(config) + seq![
            ActionView::Commit,
            ActionView::DestroyContext,
            ActionView::DestroyManager,
            ActionView::Roundtrip,
            ActionView::Disconnect,
            ActionView::Finish(Ok(())),
        ]
    }
}

/// The optional settings from the `k`-th on that are set, in their order.
pub open spec fn settings_from(config: ContextConfigView, k: u8) -> Seq<ActionView>
    decreases 3 - k,
{
    if k == 0 {
        (match config.sandbox_engine {
            Some(s) => seq![ActionView::SetSandboxEngine(s)],
            None => Seq::empty(),
        }) + settings_from(config, 1)
    } else if k == 1 {
        (match config.app_id {
            Some(s) => seq![ActionView::SetAppId(s)],
            None => Seq::empty(),
        }) + settings_from(config, 2)
    } else if k == 2 {
        match config.instance_id {
            Some(s) => seq![ActionView::SetInstanceId(s)],
            None => Seq::empty(),
        }
    } else {
        Seq::empty()
    }
}

/// The actions from the commit on, when everything succeeded.
pub open spec fn commit_script() -> Seq<ActionView> {
    seq![
        ActionView::Commit,
        ActionView::DestroyContext,
        ActionView::DestroyManager,
        ActionView::Roundtrip,
        ActionView::Disconnect,
        ActionView::Finish(Ok(())),
    ]
}

proof fn lemma_commit_tail(config: ContextConfigView, o: Outcomes, fuel: nat)
    requires
        fuel >= 5,
    ensures
        trace_from(config, Phase::Committing, ActionView::Commit, o, fuel) == commit_script(),
{
    reveal_with_fuel(trace_from, 6);
    assert(trace_from(config, Phase::Committing, ActionView::Commit, o, fuel) =~= commit_script());
}

proof fn lemma_settings(config: ContextConfigView, o: Outcomes, k: u8, fuel: nat)
    requires
        k <= 3,
        fuel >= 8 - k,
    ensures
        ({
            let (p, a) = spec_next_setting(config, k);
            trace_from(config, p, a, o, fuel) == settings_from(config, k) + commit_script()
        }),
    decreases 3 - k,
{
    let (p, a) = spec_next_setting(config, k);
    if k == 0 {
        lemma_settings(config, o, 1, (fuel - 1) as nat);
        lemma_settings(config, o, 1, fuel);
        if config.sandbox_engine is Some {
            assert(trace_from(config, p, a, o, fuel) =~= settings_from(config, k) + commit_script());
        } else {
            assert(settings_from(config, 0) =~= settings_from(config, 1));
        }
    } else if k == 1 {
        lemma_settings(config, o, 2, (fuel - 1) as nat);
        lemma_settings(config, o, 2, fuel);
        if config.app_id is Some {
            assert(trace_from(config, p, a, o, fuel) =~= settings_from(config, k) + commit_script());
        } else {
            assert(settings_from(config, 1) =~= settings_from(config, 2));
        }
    } else if k == 2 {
        lemma_commit_tail(config, o, (fuel - 1) as nat);
        lemma_commit_tail(config, o, fuel);
        if config.instance_id is Some {
            assert(trace_from(config, p, a, o, fuel) =~= settings_from(config, k) + commit_script());
        } else {
            assert(settings_from(config, 2) + commit_script() =~= commit_script());
        }
    } else {
        lemma_commit_tail(config, o, fuel);
        assert(settings_from(config, 3) + commit_script() =~= commit_script());
    }
}

/// Conversation law: for every configuration and every outcome of the
/// compositor's calls, the machine hands out exactly the actions of
/// [`expected_script`]: it connects, installs the registry listener, round-trips,
/// binds the advertised manager at version at most 1, asks for a context on
/// the listening socket, sends each optional setting that is given (engine,
/// app id, instance id, in that order), commits, releases both objects,
/// round-trips, disconnects and succeeds; a failed step ends it at once,
/// after releasing what was acquired.
pub proof fn law_session_script(config: ContextConfigView, o: Outcomes)
    ensures
        session_trace(config, o) == expected_script(config, o),
{
    let c = config;
    let t0 = session_trace(c, o);
    let bind = ActionView::Bind { name: o.manager.name, version: bind_version(o.manager.version) };
    let create = ActionView::CreateListener { listen_fd: c.listen_fd, close_fd: c.close_fd };
    let t2 = trace_from(c, Phase::AddingListener, ActionView::ListenRegistry, o, 15);
    let t3 = trace_from(c, Phase::Discovering, ActionView::Roundtrip, o, 14);
    let t4 = trace_from(c, Phase::Binding, bind, o, 13);
    let t5 = trace_from(c, Phase::Creating, create, o, 12);
    if !o.connected {
        reveal_with_fuel(trace_from, 2);
        assert(t0 =~= expected_script(c, o));
    } else if !o.listener_added {
        reveal_with_fuel(trace_from, 3);
        assert(t2 =~= seq![ActionView::ListenRegistry, ActionView::Disconnect,
            ActionView::Finish(Err(ContextError::ListenerFailed))]);
        assert(t0 == seq![ActionView::Connect] + t2);
        assert(t0 =~= expected_script(c, o));
    } else if o.manager.name == 0 {
        reveal_with_fuel(trace_from, 3);
        assert(t3 =~= seq![ActionView::Roundtrip, ActionView::Disconnect,
            ActionView::Finish(Err(ContextError::ManagerMissing))]);
        assert(t2 == seq![ActionView::ListenRegistry] + t3);
        assert(t0 == seq![ActionView::Connect] + t2);
        assert(t0 =~= expected_script(c, o));
    } else if !o.bound {
        reveal_with_fuel(trace_from, 3);
        assert(t4 =~= seq![bind, ActionView::Disconnect,
            ActionView::Finish(Err(ContextError::BindFailed))]);
        assert(t3 == seq![ActionView::Roundtrip] + t4);
        assert(t2 == seq![ActionView::ListenRegistry] + t3);
        assert(t0 == seq![ActionView::Connect] + t2);
        assert(t0 =~= expected_script(c, o));
    } else if !o.created {
        reveal_with_fuel(trace_from, 4);
        assert(t5 =~= seq![create, ActionView::DestroyManager, ActionView::Disconnect,
            ActionView::Finish(Err(ContextError::CreateFailed))]);
        assert(t4 == seq![bind] + t5);
        assert(t3 == seq![ActionView::Roundtrip] + t4);
        assert(t2 == seq![ActionView::ListenRegistry] + t3);
        assert(t0 == seq![ActionView::Connect] + t2);
        assert(t0 =~= expected_script(c, o));
    } else {
        let (p5, a5) = spec_next_setting(c, 0);
        lemma_settings(c, o, 0, 11);
        assert(settings_from(c, 0) =~= settings_script(c)) by {
            reveal_with_fuel(settings_from, 4);
        }
        assert(t5 == seq![create] + trace_from(c, p5, a5, o, 11));
        assert(t4 == seq![bind] + t5);
        assert(t3 == seq![ActionView::Roundtrip] + t4);
        assert(t2 == seq![ActionView::ListenRegistry] + t3);
        assert(t0 == seq![ActionView::Connect] + t2);
        assert(t0 =~= expected_script(c, o));
    }
}

/// Every fallible call succeeded and the manager was advertised.
pub open spec fn all_succeeded(o: Outcomes) -> bool {
    o.connected && o.listener_added && o.manager.name != 0 && o.bound && o.created
}

/// The failure a conversation with these outcomes ends with.
pub open spec fn first_failure(o: Outcomes) -> ContextError {
    if !o.connected {
        ContextError::ConnectFailed
    } else if !o.listener_added {
        ContextError::ListenerFailed
    } else if o.manager.name == 0 {
        ContextError::ManagerMissing
    } else if !o.bound {
        ContextError::BindFailed
    } else {
        ContextError::CreateFailed
    }
}

proof fn lemma_settings_script_shape(c: ContextConfigView)
    ensures
        settings_script(c).len() <= 3,
        forall|i: int|
            0 <= i < settings_script(c).len() ==> {
                let a = #[trigger] settings_script(c)[i];
                a is SetSandboxEngine || a is SetAppId || a is SetInstanceId
            },
{
}

/// Outcome law: the conversation ends with exactly one `Finish`, as its last
/// action; it reports success exactly when every call succeeded and the
/// manager was advertised, and otherwise the first thing that went wrong.
pub proof fn law_session_outcome(config: ContextConfigView, o: Outcomes)
    ensures
        session_trace(config, o).len() >= 2,
        session_trace(config, o).last() == ActionView::Finish(
            if all_succeeded(o) {
                Ok(())
            } else {
                Err(first_failure(o))
            },
        ),
        forall|i: int|
            0 <= i < session_trace(config, o).len() - 1 ==> !(#[trigger] session_trace(
                config,
                o,
            )[i] is Finish),
{
    law_session_script(config, o);
    lemma_settings_script_shape(config);
}

/// Release law: once connected, the display is always disconnected just
/// before the end; the manager object is destroyed exactly when it was
/// bound, and the context object exactly when the context was made.
pub proof fn law_session_releases(config: ContextConfigView, o: Outcomes)
    ensures
        o.connected ==> session_trace(config, o)[session_trace(config, o).len() - 2]
            == ActionView::Disconnect,
        !o.connected ==> !session_trace(config, o).contains(ActionView::Disconnect),
        session_trace(config, o).contains(ActionView::DestroyManager) <==> (o.connected
            && o.listener_added && o.manager.name != 0 && o.bound),
        session_trace(config, o).contains(ActionView::DestroyContext) <==> all_succeeded(o),
{
    law_session_script(config, o);
    lemma_settings_script_shape(config);
    let t = session_trace(config, o);
    if o.connected && o.listener_added && o.manager.name != 0 && o.bound {
        if o.created {
            let k: int = 5 + settings_script(config).len() as int;
            assert(t[k + 2] == ActionView::DestroyManager);
            assert(t[k + 1] == ActionView::DestroyContext);
        } else {
            assert(t[5] == ActionView::DestroyManager);
            assert(!t.contains(ActionView::DestroyContext));
        }
    } else {
        assert(!t.contains(ActionView::DestroyManager));
        assert(!t.contains(ActionView::DestroyContext));
        if !o.connected {
            assert(!t.contains(ActionView::Disconnect));
        }
    }
}

/// Binding law: the manager is bound only when it was advertised, under the
/// advertised name, at the advertised version but never above 1.
pub proof fn law_bind_version(config: ContextConfigView, o: Outcomes, i: int)
    requires
        0 <= i < session_trace(config, o).len(),
        session_trace(config, o)[i] is Bind,
    ensures
        o.manager.name != 0,
        session_trace(config, o)[i] == (ActionView::Bind {
            name: o.manager.name,
            version: if o.manager.version < 1 {
                o.manager.version
            } else {
                1
            },
        }),
        session_trace(config, o)[i]->version <= 1,
{
    law_session_script(config, o);
    lemma_settings_script_shape(config);
}

/// Protocol law: after any accepted reply, the next action (unless it ends
/// the conversation) is one whose reply, as [`reply_for`] gives it, the
/// machine accepts; and the machine is finished exactly when it says so.
pub proof fn law_replies_fit(config: ContextConfigView, phase: Phase, reply: Reply, o: Outcomes)
    requires
        spec_accepts(phase, reply),
    ensures
        ({
            let (p, a) = spec_step(config, phase, reply);
            &&& (a is Finish <==> p == Phase::Finished)
            &&& !(a is Finish) ==> spec_accepts(p, reply_for(a, o))
        }),
{
    match phase {
        Phase::Configuring(k) => {
            lemma_next_setting_fits(config, k, o);
        },
        Phase::Creating => {
            lemma_next_setting_fits(config, 0, o);
        },
        _ => {},
    }
}

proof fn lemma_next_setting_fits(config: ContextConfigView, k: u8, o: Outcomes)
    ensures
        ({
            let (p, a) = spec_next_setting(config, k);
            &&& !(a is Finish)
            &&& p != Phase::Finished
            &&& spec_accepts(p, reply_for(a, o))
        }),
    decreases 3 - k,
{
    if k < 2 {
        lemma_next_setting_fits(config, (k + 1) as u8, o);
    }
}

/// The first reply the machine awaits is the one to [`ActionView::Connect`].
pub proof fn law_start_fits(o: Outcomes)
    ensures
        spec_accepts(Phase::Connecting, reply_for(ActionView::Connect, o)),
{
}

} // verus!
