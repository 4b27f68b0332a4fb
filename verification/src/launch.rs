//! From accepted settings to what the program must set up before it talks
//! to the compositor, and what it does after.

use vstd::prelude::*;

use crate::args::{opt_chars, spec_validate, ArgError, ArgErrorView, Args, ArgsView};
use crate::session::{ContextConfig, ContextConfigView};

verus! {

/// Where the listening socket comes from.
#[derive(Debug, PartialEq, Eq)]
pub enum ListenSource {
    /// A descriptor the caller already holds.
    Fd(i32),
    /// A path to bind a new Unix socket at.
    Path(String),
}

/// What the compositor watches to stop listening.
#[derive(Debug, PartialEq, Eq)]
pub enum CloseSource {
    /// A descriptor the caller handed over.
    Fd(i32),
    /// The read end of a pipe whose write end the program keeps open while it
    /// lives; the program then stays alive until it is killed.
    KeepAlivePipe,
}

/// Everything the program does, in order: obtain the listening socket and
/// the close descriptor, create the context with the texts, signal
/// readiness, and stay alive if it holds the pipe.
#[derive(Debug, PartialEq, Eq)]
pub struct LaunchPlan {
    pub listen: ListenSource,
    pub close: CloseSource,
    pub ready_fd: Option<i32>,
    pub sandbox_engine: Option<String>,
    pub app_id: Option<String>,
    pub instance_id: Option<String>,
}

/// The mathematical content of [`ListenSource`].
pub enum ListenSourceView {
    Fd(i32),
    Path(Seq<char>),
}

/// The mathematical content of [`LaunchPlan`]; `close_fd` is `None` for the
/// keep-alive pipe.
pub struct LaunchPlanView {
    pub listen: ListenSourceView,
    pub close_fd: Option<i32>,
    pub ready_fd: Option<i32>,
    pub sandbox_engine: Option<Seq<char>>,
    pub app_id: Option<Seq<char>>,
    pub instance_id: Option<Seq<char>>,
}

impl View for LaunchPlan {
    type V = LaunchPlanView;

    open spec fn view(&self) -> LaunchPlanView {
        LaunchPlanView {
            listen: match self.listen {
                ListenSource::Fd(fd) => ListenSourceView::Fd(fd),
                ListenSource::Path(p) => ListenSourceView::Path(p@),
            },
            close_fd: match self.close {
                CloseSource::Fd(fd) => Some(fd),
                CloseSource::KeepAlivePipe => None,
            },
            ready_fd: self.ready_fd,
            sandbox_engine: opt_chars(self.sandbox_engine),
            app_id: opt_chars(self.app_id),
            instance_id: opt_chars(self.instance_id),
        }
    }
}

/// The plan for settings that name the listening socket exactly once.
pub open spec fn spec_plan(a: ArgsView) -> LaunchPlanView {
    LaunchPlanView {
        listen: match a.socket_fd {
            Some(fd) => ListenSourceView::Fd(fd),
            None => ListenSourceView::Path(a.socket_path->0),
        },
        close_fd: a.close_fd,
        ready_fd: a.ready_fd,
        sandbox_engine: a.sandbox_engine,
        app_id: a.app_id,
        instance_id: a.instance_id,
    }
}

/// Checks the settings as [`Args::validate`] does and turns accepted ones
/// into a plan.
pub fn plan_launch(args: Args) -> (r: Result<LaunchPlan, ArgError>)
    ensures
        match r {
            Ok(p) => spec_validate(args@) is Ok && p@ == spec_plan(args@),
            Err(e) => spec_validate(args@) == Err::<(), ArgErrorView>(e@),
        },
        r is Ok <==> ((args.socket_fd is Some) != (args.socket_path is Some)),
        r matches Ok(p) ==> {
            &&& p.ready_fd == args.ready_fd
            &&& p@.close_fd == args.close_fd
            &&& p@.sandbox_engine == args@.sandbox_engine
            &&& p@.app_id == args@.app_id
            &&& p@.instance_id == args@.instance_id
            &&& (args.socket_fd matches Some(fd) ==> p@.listen == ListenSourceView::Fd(fd))
            &&& (args@.socket_path matches Some(path) ==> args.socket_fd is None
                ==> p@.listen == ListenSourceView::Path(path))
        },
{
    if let Err(e) = args.validate() {
        return Err(e);
    }
    let listen = match args.socket_fd {
        Some(fd) => ListenSource::Fd(fd),
        None => match args.socket_path {
            Some(p) => ListenSource::Path(p),
            None => {
                return Err(ArgError::NoSocket);
            },
        },
    };
    let close = match args.close_fd {
        Some(fd) => CloseSource::Fd(fd),
        None => CloseSource::KeepAlivePipe,
    };
    Ok(
        LaunchPlan {
            listen,
            close,
            ready_fd: args.ready_fd,
            sandbox_engine: args.sandbox_engine,
            app_id: args.app_id,
            instance_id: args.instance_id,
        },
    )
}

impl LaunchPlan {
    /// Whether the program must stay alive after creating the context: it
    /// holds the write end of the close pipe.
    pub fn stays_alive(&self) -> (r: bool)
        ensures
            r == (self@.close_fd is None),
    {
        match self.close {
            CloseSource::Fd(_) => false,
            CloseSource::KeepAlivePipe => true,
        }
    }

    /// The context to create once the listening socket and the close
    /// descriptor are open; the texts are handed over.
    pub fn into_context_config(self, listen_fd: i32, close_fd: i32) -> (r: ContextConfig)
        ensures
            r@ == (ContextConfigView {
                listen_fd,
                close_fd,
                sandbox_engine: self@.sandbox_engine,
                app_id: self@.app_id,
                instance_id: self@.instance_id,
            }),
    {
        ContextConfig {
            listen_fd,
            close_fd,
            sandbox_engine: self.sandbox_engine,
            app_id: self.app_id,
            instance_id: self.instance_id,
        }
    }
}

/// Plan law: for accepted settings the plan listens on the given socket fd,
/// or else at the given path; it watches exactly the given close fd (none
/// meaning the keep-alive pipe, and then the program stays alive), signals
/// readiness on exactly the given ready fd, and hands on each text unchanged.
pub proof fn law_plan_sources(a: ArgsView)
    requires
        spec_validate(a) is Ok,
    ensures
        a.socket_fd matches Some(fd) ==> spec_plan(a).listen == ListenSourceView::Fd(fd),
        a.socket_path matches Some(p) ==> spec_plan(a).listen == ListenSourceView::Path(p),
        spec_plan(a).close_fd == a.close_fd,
        spec_plan(a).ready_fd == a.ready_fd,
        spec_plan(a).sandbox_engine == a.sandbox_engine,
        spec_plan(a).app_id == a.app_id,
        spec_plan(a).instance_id == a.instance_id,
{
}

} // verus!
