//! The command line: its options, how a list of arguments is read into
//! [`Args`], and which combinations of options are accepted.

use vstd::prelude::*;
use vstd::string::*;

use crate::number::{parse_fd, spec_parse_i32};
use crate::text::{contains_nul, starts_with_char, str_eq};

verus! {

/// The options the tool knows, each with a short and a long spelling.
#[derive(Clone, Copy, Debug, PartialEq, Eq, Structural)]
pub enum Opt {
    SocketFd,
    SocketPath,
    SandboxEngine,
    AppId,
    InstanceId,
    CloseFd,
    ReadyFd,
    Help,
}

/// The options whose value is free text handed on to the compositor.
#[derive(Clone, Copy, Debug, PartialEq, Eq, Structural)]
pub enum TextField {
    SandboxEngine,
    AppId,
    InstanceId,
}

/// Which option, if any, an argument spells.
pub open spec fn spec_option_of(s: Seq<char>) -> Option<Opt> {
    if s == "-s"@ || s == "--socket-fd"@ {
        Some(Opt::SocketFd)
    } else if s == "-S"@ || s == "--socket-path"@ {
        Some(Opt::SocketPath)
    } else if s == "-e"@ || s == "--sandbox-engine"@ {
        Some(Opt::SandboxEngine)
    } else if s == "-a"@ || s == "--app-id"@ {
        Some(Opt::AppId)
    } else if s == "-i"@ || s == "--instance-id"@ {
        Some(Opt::InstanceId)
    } else if s == "-c"@ || s == "--close-fd"@ {
        Some(Opt::CloseFd)
    } else if s == "-r"@ || s == "--ready-fd"@ {
        Some(Opt::ReadyFd)
    } else if s == "-h"@ || s == "--help"@ {
        Some(Opt::Help)
    } else {
        None
    }
}

/// The long spelling of an option.
pub open spec fn spec_long_name(o: Opt) -> Seq<char> {
    match o {
        Opt::SocketFd => "--socket-fd"@,
        Opt::SocketPath => "--socket-path"@,
        Opt::SandboxEngine => "--sandbox-engine"@,
        Opt::AppId => "--app-id"@,
        Opt::InstanceId => "--instance-id"@,
        Opt::CloseFd => "--close-fd"@,
        Opt::ReadyFd => "--ready-fd"@,
        Opt::Help => "--help"@,
    }
}

/// How a text field is named in the message that refuses a NUL in it.
pub open spec fn spec_field_label(f: TextField) -> Seq<char> {
    match f {
        TextField::SandboxEngine => "engine name"@,
        TextField::AppId => "app-id"@,
        TextField::InstanceId => "instance-id"@,
    }
}

/// Reads an argument as an option.
pub fn option_of(arg: &str) -> (r: Option<Opt>)
    ensures
        r == spec_option_of(arg@),
{
    if str_eq(arg, "-s") || str_eq(arg, "--socket-fd") {
        Some(Opt::SocketFd)
    } else if str_eq(arg, "-S") || str_eq(arg, "--socket-path") {
        Some(Opt::SocketPath)
    } else if str_eq(arg, "-e") || str_eq(arg, "--sandbox-engine") {
        Some(Opt::SandboxEngine)
    } else if str_eq(arg, "-a") || str_eq(arg, "--app-id") {
        Some(Opt::AppId)
    } else if str_eq(arg, "-i") || str_eq(arg, "--instance-id") {
        Some(Opt::InstanceId)
    } else if str_eq(arg, "-c") || str_eq(arg, "--close-fd") {
        Some(Opt::CloseFd)
    } else if str_eq(arg, "-r") || str_eq(arg, "--ready-fd") {
        Some(Opt::ReadyFd)
    } else if str_eq(arg, "-h") || str_eq(arg, "--help") {
        Some(Opt::Help)
    } else {
        None
    }
}

/// The long spelling of an option.
pub fn long_name(o: Opt) -> (r: &'static str)
    ensures
        r@ == spec_long_name(o),
{
    match o {
        Opt::SocketFd => "--socket-fd",
        Opt::SocketPath => "--socket-path",
        Opt::SandboxEngine => "--sandbox-engine",
        Opt::AppId => "--app-id",
        Opt::InstanceId => "--instance-id",
        Opt::CloseFd => "--close-fd",
        Opt::ReadyFd => "--ready-fd",
        Opt::Help => "--help",
    }
}

/// The settings read from the command line.
#[derive(Debug, PartialEq, Eq)]
pub struct Args {
    pub socket_fd: Option<i32>,
    pub socket_path: Option<String>,
    pub sandbox_engine: Option<String>,
    pub app_id: Option<String>,
    pub instance_id: Option<String>,
    pub close_fd: Option<i32>,
    pub ready_fd: Option<i32>,
}

/// The mathematical content of [`Args`].
pub struct ArgsView {
    pub socket_fd: Option<i32>,
    pub socket_path: Option<Seq<char>>,
    pub sandbox_engine: Option<Seq<char>>,
    pub app_id: Option<Seq<char>>,
    pub instance_id: Option<Seq<char>>,
    pub close_fd: Option<i32>,
    pub ready_fd: Option<i32>,
}

/// The characters of an optional string.
pub open spec fn opt_chars(o: Option<String>) -> Option<Seq<char>> {
    match o {
        Some(s) => Some(s@),
        None => None,
    }
}

/// An optional text holds no NUL character.
pub open spec fn nul_free(o: Option<Seq<char>>) -> bool {
    o matches Some(s) ==> !s.contains('\0')
}

impl ArgsView {
    /// No option given.
    pub open spec fn empty() -> ArgsView {
        ArgsView {
            socket_fd: None,
            socket_path: None,
            sandbox_engine: None,
            app_id: None,
            instance_id: None,
            close_fd: None,
            ready_fd: None,
        }
    }

    /// The texts handed on to the compositor can be C strings.
    pub open spec fn texts_ok(self) -> bool {
        &&& nul_free(self.sandbox_engine)
        &&& nul_free(self.app_id)
        &&& nul_free(self.instance_id)
    }
}

impl View for Args {
    type V = ArgsView;

    open spec fn view(&self) -> ArgsView {
        ArgsView {
            socket_fd: self.socket_fd,
            socket_path: opt_chars(self.socket_path),
            sandbox_engine: opt_chars(self.sandbox_engine),
            app_id: opt_chars(self.app_id),
            instance_id: opt_chars(self.instance_id),
            close_fd: self.close_fd,
            ready_fd: self.ready_fd,
        }
    }
}

impl Default for Args {
    fn default() -> (r: Args)
        ensures
            r@ == ArgsView::empty(),
    {
        Args {
            socket_fd: None,
            socket_path: None,
            sandbox_engine: None,
            app_id: None,
            instance_id: None,
            close_fd: None,
            ready_fd: None,
        }
    }
}

/// Why a command line is refused.
#[derive(Debug, PartialEq, Eq)]
pub enum ArgError {
    /// The option was the last argument.
    MissingValue(Opt),
    /// A file-descriptor value is not an `i32`.
    InvalidFd,
    /// A text value holds a NUL character.
    NulByte(TextField),
    /// An argument starting with `-` that is no known option.
    UnexpectedArgument(String),
    /// An argument that is neither an option nor an option's value.
    UnexpectedPositional(String),
    /// Neither a socket fd nor a socket path was given.
    NoSocket,
    /// Both a socket fd and a socket path were given.
    BothSockets,
}

/// The mathematical content of [`ArgError`].
pub enum ArgErrorView {
    MissingValue(Opt),
    InvalidFd,
    NulByte(TextField),
    UnexpectedArgument(Seq<char>),
    UnexpectedPositional(Seq<char>),
    NoSocket,
    BothSockets,
}

impl View for ArgError {
    type V = ArgErrorView;

    open spec fn view(&self) -> ArgErrorView {
        match self {
            ArgError::MissingValue(o) => ArgErrorView::MissingValue(*o),
            ArgError::InvalidFd => ArgErrorView::InvalidFd,
            ArgError::NulByte(f) => ArgErrorView::NulByte(*f),
            ArgError::UnexpectedArgument(s) => ArgErrorView::UnexpectedArgument(s@),
            ArgError::UnexpectedPositional(s) => ArgErrorView::UnexpectedPositional(s@),
            ArgError::NoSocket => ArgErrorView::NoSocket,
            ArgError::BothSockets => ArgErrorView::BothSockets,
        }
    }
}

/// The text shown for an error.
pub open spec fn spec_message(e: ArgErrorView) -> Seq<char> {
    match e {
        ArgErrorView::MissingValue(o) => spec_long_name(o) + " requires a value"@,
        ArgErrorView::InvalidFd => "invalid fd"@,
        ArgErrorView::NulByte(f) => spec_field_label(f) + " contains null byte"@,
        ArgErrorView::UnexpectedArgument(a) => "unexpected argument: "@ + a,
        ArgErrorView::UnexpectedPositional(a) => "unexpected positional argument: "@ + a,
        ArgErrorView::NoSocket => "No socket fd or socket path specified"@,
        ArgErrorView::BothSockets => "Cannot use both socket fd and socket path"@,
    }
}

impl ArgError {
    /// The text shown for this error.
    pub fn message(&self) -> (r: String)
        ensures
            r@ == spec_message(self@),
    {
        match self {
            ArgError::MissingValue(o) => String::from_str(long_name(*o)).concat(" requires a value"),
            ArgError::InvalidFd => String::from_str("invalid fd"),
            ArgError::NulByte(f) => {
                let label = match f {
                    TextField::SandboxEngine => "engine name",
                    TextField::AppId => "app-id",
                    TextField::InstanceId => "instance-id",
                };
                String::from_str(label).concat(" contains null byte")
            },
            ArgError::UnexpectedArgument(a) => String::from_str("unexpected argument: ").concat(
                a.as_str(),
            ),
            ArgError::UnexpectedPositional(a) => String::from_str(
                "unexpected positional argument: ",
            ).concat(a.as_str()),
            ArgError::NoSocket => String::from_str("No socket fd or socket path specified"),
            ArgError::BothSockets => String::from_str("Cannot use both socket fd and socket path"),
        }
    }
}

/// What a command line asks for.
#[derive(Debug, PartialEq, Eq)]
pub enum ParseOutcome {
    /// Run with these settings.
    Run(Args),
    /// Show the usage text and stop.
    Help,
}

/// The mathematical content of [`ParseOutcome`].
pub enum OutcomeView {
    Run(ArgsView),
    Help,
}

impl View for ParseOutcome {
    type V = OutcomeView;

    open spec fn view(&self) -> OutcomeView {
        match self {
            ParseOutcome::Run(a) => OutcomeView::Run(a@),
            ParseOutcome::Help => OutcomeView::Help,
        }
    }
}

/// Records the value `v` of option `o` (not `Help`) in `acc`.
pub open spec fn spec_apply(acc: ArgsView, o: Opt, v: Seq<char>) -> Result<ArgsView, ArgErrorView> {
    match o {
        Opt::SocketFd => match spec_parse_i32(v) {
            Some(fd) => Ok(ArgsView { socket_fd: Some(fd), ..acc }),
            None => Err(ArgErrorView::InvalidFd),
        },
        Opt::CloseFd => match spec_parse_i32(v) {
            Some(fd) => Ok(ArgsView { close_fd: Some(fd), ..acc }),
            None => Err(ArgErrorView::InvalidFd),
        },
        Opt::ReadyFd => match spec_parse_i32(v) {
            Some(fd) => Ok(ArgsView { ready_fd: Some(fd), ..acc }),
            None => Err(ArgErrorView::InvalidFd),
        },
        Opt::SocketPath => Ok(ArgsView { socket_path: Some(v), ..acc }),
        Opt::SandboxEngine => if v.contains('\0') {
            Err(ArgErrorView::NulByte(TextField::SandboxEngine))
        } else {
            Ok(ArgsView { sandbox_engine: Some(v), ..acc })
        },
        Opt::AppId => if v.contains('\0') {
            Err(ArgErrorView::NulByte(TextField::AppId))
        } else {
            Ok(ArgsView { app_id: Some(v), ..acc })
        },
        Opt::InstanceId => if v.contains('\0') {
            Err(ArgErrorView::NulByte(TextField::InstanceId))
        } else {
            Ok(ArgsView { instance_id: Some(v), ..acc })
        },
        Opt::Help => Ok(acc),
    }
}

/// Reads `raw[i..]` into `acc`: each option takes the argument after it as
/// its value, a later value replaces an earlier one, `-h` stops the reading.
pub open spec fn spec_parse_from(raw: Seq<Seq<char>>, i: int, acc: ArgsView) -> Result<
    OutcomeView,
    ArgErrorView,
>
    decreases raw.len() - i,
{
    if i < 0 || i >= raw.len() {
        Ok(OutcomeView::Run(acc))
    } else {
        let arg = raw[i];
        match spec_option_of(arg) {
            Some(Opt::Help) => Ok(OutcomeView::Help),
            Some(o) => if i + 1 >= raw.len() {
                Err(ArgErrorView::MissingValue(o))
            } else {
                match spec_apply(acc, o, raw[i + 1]) {
                    Ok(next) => spec_parse_from(raw, i + 2, next),
                    Err(e) => Err(e),
                }
            },
            None => if arg.len() > 0 && arg[0] == '-' {
                Err(ArgErrorView::UnexpectedArgument(arg))
            } else {
                Err(ArgErrorView::UnexpectedPositional(arg))
            },
        }
    }
}

/// What a whole command line asks for; `argv[0]`, the program's name, is
/// skipped.
pub open spec fn spec_parse_args(argv: Seq<Seq<char>>) -> Result<OutcomeView, ArgErrorView> {
    spec_parse_from(argv, 1, ArgsView::empty())
}

/// Reads the fd value of an option.
fn fd_value(v: &String) -> (r: Result<i32, ArgError>)
    ensures
        match r {
            Ok(fd) => spec_parse_i32(v@) == Some(fd),
            Err(e) => spec_parse_i32(v@) is None && e@ == ArgErrorView::InvalidFd,
        },
{
    match parse_fd(v.as_str()) {
        Some(fd) => Ok(fd),
        None => Err(ArgError::InvalidFd),
    }
}

/// Reads a text value, refusing a NUL character.
fn text_value(v: &String, f: TextField) -> (r: Result<String, ArgError>)
    ensures
        match r {
            Ok(s) => s@ == v@ && !v@.contains('\0'),
            Err(e) => v@.contains('\0') && e@ == ArgErrorView::NulByte(f),
        },
{
    if contains_nul(v.as_str()) {
        Err(ArgError::NulByte(f))
    } else {
        Ok(v.clone())
    }
}

/// Records the value `v` of option `o` in `acc`.
fn apply(acc: &mut Args, o: Opt, v: &String) -> (r: Result<(), ArgError>)
    requires
        o != Opt::Help,
    ensures
        match spec_apply(old(acc)@, o, v@) {
            Ok(next) => r is Ok && final(acc)@ == next,
            Err(e) => r matches Err(e2) && e2@ == e,
        },
{
    match o {
        Opt::SocketFd => {
            acc.socket_fd = Some(fd_value(v)?);
        },
        Opt::CloseFd => {
            acc.close_fd = Some(fd_value(v)?);
        },
        Opt::ReadyFd => {
            acc.ready_fd = Some(fd_value(v)?);
        },
        Opt::SocketPath => {
            acc.socket_path = Some(v.clone());
        },
        Opt::SandboxEngine => {
            acc.sandbox_engine = Some(text_value(v, TextField::SandboxEngine)?);
        },
        Opt::AppId => {
            acc.app_id = Some(text_value(v, TextField::AppId)?);
        },
        Opt::InstanceId => {
            acc.instance_id = Some(text_value(v, TextField::InstanceId)?);
        },
        Opt::Help => {},
    }
    Ok(())
}

/// Reads the command line `argv` (with the program's name first).
pub fn parse_args(argv: &Vec<String>) -> (r: Result<ParseOutcome, ArgError>)
    requires
        argv.len() >= 1,
    ensures
        match r {
            Ok(o) => spec_parse_args(argv.deep_view()) == Ok::<OutcomeView, ArgErrorView>(o@),
            Err(e) => spec_parse_args(argv.deep_view()) == Err::<OutcomeView, ArgErrorView>(e@),
        },
        r matches Ok(ParseOutcome::Run(a)) ==> a@.texts_ok(),
{
    let ghost raw = argv.deep_view();
    let mut acc = Args::default();
    let mut i: usize = 1;
    while i < argv.len()
        invariant
            raw == argv.deep_view(),
            1 <= i,
            spec_parse_args(raw) == spec_parse_from(raw, i as int, acc@),
            acc@.texts_ok(),
        decreases argv.len() - i,
    {
        let arg = &argv[i];
        assert(raw[i as int] == arg@);
        match option_of(arg.as_str()) {
            Some(Opt::Help) => {
                return Ok(ParseOutcome::Help);
            },
            Some(o) => {
                if i + 1 >= argv.len() {
                    return Err(ArgError::MissingValue(o));
                }
                let v = &argv[i + 1];
                assert(raw[i + 1] == v@);
                match apply(&mut acc, o, v) {
                    Ok(()) => {},
                    Err(e) => {
                        return Err(e);
                    },
                }
                i = i + 2;
            },
            None => {
                if starts_with_char(arg.as_str(), '-') {
                    return Err(ArgError::UnexpectedArgument(arg.clone()));
                } else {
                    return Err(ArgError::UnexpectedPositional(arg.clone()));
                }
            },
        }
    }
    Ok(ParseOutcome::Run(acc))
}

/// Whether the listening socket is named exactly once.
pub open spec fn spec_validate(a: ArgsView) -> Result<(), ArgErrorView> {
    match (a.socket_fd, a.socket_path) {
        (Some(_), None) => Ok(()),
        (None, Some(_)) => Ok(()),
        (None, None) => Err(ArgErrorView::NoSocket),
        (Some(_), Some(_)) => Err(ArgErrorView::BothSockets),
    }
}

impl Args {
    /// Accepts the settings when exactly one of `--socket-fd` and
    /// `--socket-path` was given.
    pub fn validate(&self) -> (r: Result<(), ArgError>)
        ensures
            match r {
                Ok(()) => spec_validate(self@) is Ok,
                Err(e) => spec_validate(self@) == Err::<(), ArgErrorView>(e@),
            },
            r is Ok <==> ((self.socket_fd is Some) != (self.socket_path is Some)),
    {
        match (self.socket_fd, &self.socket_path) {
            (Some(_), None) => Ok(()),
            (None, Some(_)) => Ok(()),
            (None, None) => Err(ArgError::NoSocket),
            (Some(_), Some(_)) => Err(ArgError::BothSockets),
        }
    }
}

/// The help text.
pub open spec fn spec_usage() -> Seq<char> {
    "Usage: wl-container [OPTIONS] --socket-fd SOCKET_FD\n       wl-container [OPTIONS] --socket-path SOCKET_PATH\n\nCreate Wayland security context at SOCKET_FD\n\t-e ENGINE    Engine ID for security context\n\t-a APP_ID    App ID for security context\n\t-i INSTANCE  Instance ID for security context\n\t-c FD        Stop listening when FD closes\n\t-r FD        Notify readiness on FD\n\t-h           Show help and exit\n\nSee 'man wl-container' for details."@
}

/// The help text, shown for `-h` and before every refusal.
pub fn usage() -> (r: &'static str)
    ensures
        r@ == spec_usage(),
{
    "Usage: wl-container [OPTIONS] --socket-fd SOCKET_FD\n       wl-container [OPTIONS] --socket-path SOCKET_PATH\n\nCreate Wayland security context at SOCKET_FD\n\t-e ENGINE    Engine ID for security context\n\t-a APP_ID    App ID for security context\n\t-i INSTANCE  Instance ID for security context\n\t-c FD        Stop listening when FD closes\n\t-r FD        Notify readiness on FD\n\t-h           Show help and exit\n\nSee 'man wl-container' for details."
}

proof fn lemma_parse_append(raw: Seq<Seq<char>>, extra: Seq<Seq<char>>, i: int, acc: ArgsView)
    requires
        0 <= i <= raw.len(),
        spec_parse_from(raw, i, acc) matches Ok(OutcomeView::Run(_)),
    ensures
        spec_parse_from(raw + extra, i, acc) == spec_parse_from(
            raw + extra,
            raw.len() as int,
            spec_parse_from(raw, i, acc)->Ok_0->Run_0,
        ),
    decreases raw.len() - i,
{
    if i < raw.len() {
        let o = spec_option_of(raw[i]);
        assert((raw + extra)[i] == raw[i]);
        assert(o is Some && o != Some(Opt::Help));
        assert(i + 1 < raw.len());
        assert((raw + extra)[i + 1] == raw[i + 1]);
        let next = spec_apply(acc, o->0, raw[i + 1])->Ok_0;
        lemma_parse_append(raw, extra, i + 2, next);
    }
}

/// Reading law: a command line that is accepted can be continued; the
/// arguments added after it are read starting from the settings it gave.
pub proof fn law_parse_continues(raw: Seq<Seq<char>>, extra: Seq<Seq<char>>)
    requires
        raw.len() >= 1,
        spec_parse_args(raw) matches Ok(OutcomeView::Run(_)),
    ensures
        spec_parse_args(raw + extra) == spec_parse_from(
            raw + extra,
            raw.len() as int,
            spec_parse_args(raw)->Ok_0->Run_0,
        ),
{
    lemma_parse_append(raw, extra, 1, ArgsView::empty());
}

/// Repetition law: an option given again after an accepted command line
/// replaces its earlier value (or refuses a bad value as it would anywhere).
pub proof fn law_later_value_wins(raw: Seq<Seq<char>>, flag: Seq<char>, value: Seq<char>)
    requires
        raw.len() >= 1,
        spec_parse_args(raw) matches Ok(OutcomeView::Run(_)),
        spec_option_of(flag) matches Some(o) && o != Opt::Help,
    ensures
        spec_parse_args(raw + seq![flag, value]) == match spec_apply(
            spec_parse_args(raw)->Ok_0->Run_0,
            spec_option_of(flag)->0,
            value,
        ) {
            Ok(a) => Ok::<OutcomeView, ArgErrorView>(OutcomeView::Run(a)),
            Err(e) => Err(e),
        },
{
    let extra = seq![flag, value];
    law_parse_continues(raw, extra);
    let all = raw + extra;
    let n = raw.len() as int;
    assert(all[n] == flag);
    assert(all[n + 1] == value);
    assert(all.len() == n + 2);
    let a = spec_parse_args(raw)->Ok_0->Run_0;
    let o = spec_option_of(flag)->0;
    match spec_apply(a, o, value) {
        Ok(b) => {
            assert(spec_parse_from(all, n + 2, b) == Ok::<OutcomeView, ArgErrorView>(
                OutcomeView::Run(b),
            ));
        },
        Err(_) => {},
    }
}

/// Spelling law: each option is read from its short spelling and from its
/// long one alike, and from nothing else.
#[verifier::spinoff_prover]
pub proof fn law_option_spellings(s: Seq<char>)
    ensures
        spec_option_of("-s"@) == Some(Opt::SocketFd),
        spec_option_of("--socket-fd"@) == Some(Opt::SocketFd),
        spec_option_of("-S"@) == Some(Opt::SocketPath),
        spec_option_of("--socket-path"@) == Some(Opt::SocketPath),
        spec_option_of("-e"@) == Some(Opt::SandboxEngine),
        spec_option_of("--sandbox-engine"@) == Some(Opt::SandboxEngine),
        spec_option_of("-a"@) == Some(Opt::AppId),
        spec_option_of("--app-id"@) == Some(Opt::AppId),
        spec_option_of("-i"@) == Some(Opt::InstanceId),
        spec_option_of("--instance-id"@) == Some(Opt::InstanceId),
        spec_option_of("-c"@) == Some(Opt::CloseFd),
        spec_option_of("--close-fd"@) == Some(Opt::CloseFd),
        spec_option_of("-r"@) == Some(Opt::ReadyFd),
        spec_option_of("--ready-fd"@) == Some(Opt::ReadyFd),
        spec_option_of("-h"@) == Some(Opt::Help),
        spec_option_of("--help"@) == Some(Opt::Help),
        spec_option_of(s) is Some ==> (s == "-s"@ || s == "--socket-fd"@ || s == "-S"@ || s == "--socket-path"@ || s == "-e"@ || s == "--sandbox-engine"@ || s == "-a"@ || s == "--app-id"@ || s == "-i"@ || s == "--instance-id"@ || s == "-c"@ || s == "--close-fd"@ || s == "-r"@ || s == "--ready-fd"@ || s == "-h"@ || s == "--help"@),
{
    reveal_strlit("-s");
    reveal_strlit("--socket-fd");
    reveal_strlit("-S");
    reveal_strlit("--socket-path");
    reveal_strlit("-e");
    reveal_strlit("--sandbox-engine");
    reveal_strlit("-a");
    reveal_strlit("--app-id");
    reveal_strlit("-i");
    reveal_strlit("--instance-id");
    reveal_strlit("-c");
    reveal_strlit("--close-fd");
    reveal_strlit("-r");
    reveal_strlit("--ready-fd");
    reveal_strlit("-h");
    reveal_strlit("--help");
    assert(spec_option_of("-s"@) == Some(Opt::SocketFd)) by {
        assert("-s"@[1] != "-S"@[1]);
        assert("-s"@[1] != "-e"@[1]);
        assert("-s"@[1] != "-a"@[1]);
        assert("-s"@[1] != "-i"@[1]);
        assert("-s"@[1] != "-c"@[1]);
        assert("-s"@[1] != "-r"@[1]);
        assert("-s"@[1] != "-h"@[1]);
    }
    assert(spec_option_of("--socket-fd"@) == Some(Opt::SocketFd)) by {
        assert("--socket-fd"@.len() != "-s"@.len());
        assert("--socket-fd"@.len() != "-S"@.len());
        assert("--socket-fd"@.len() != "-e"@.len());
        assert("--socket-fd"@.len() != "-a"@.len());
        assert("--socket-fd"@.len() != "-i"@.len());
        assert("--socket-fd"@.len() != "-c"@.len());
        assert("--socket-fd"@.len() != "-r"@.len());
        assert("--socket-fd"@.len() != "-h"@.len());
        assert("--socket-fd"@.len() != "--socket-path"@.len());
        assert("--socket-fd"@.len() != "--sandbox-engine"@.len());
        assert("--socket-fd"@.len() != "--app-id"@.len());
        assert("--socket-fd"@.len() != "--instance-id"@.len());
        assert("--socket-fd"@.len() != "--close-fd"@.len());
        assert("--socket-fd"@.len() != "--ready-fd"@.len());
        assert("--socket-fd"@.len() != "--help"@.len());
    }
    assert(spec_option_of("-S"@) == Some(Opt::SocketPath)) by {
        assert("-S"@[1] != "-s"@[1]);
        assert("-S"@[1] != "-e"@[1]);
        assert("-S"@[1] != "-a"@[1]);
        assert("-S"@[1] != "-i"@[1]);
        assert("-S"@[1] != "-c"@[1]);
        assert("-S"@[1] != "-r"@[1]);
        assert("-S"@[1] != "-h"@[1]);
    }
    assert(spec_option_of("--socket-path"@) == Some(Opt::SocketPath)) by {
        assert("--socket-path"@.len() != "-s"@.len());
        assert("--socket-path"@.len() != "-S"@.len());
        assert("--socket-path"@.len() != "-e"@.len());
        assert("--socket-path"@.len() != "-a"@.len());
        assert("--socket-path"@.len() != "-i"@.len());
        assert("--socket-path"@.len() != "-c"@.len());
        assert("--socket-path"@.len() != "-r"@.len());
        assert("--socket-path"@.len() != "-h"@.len());
        assert("--socket-path"@.len() != "--socket-fd"@.len());
        assert("--socket-path"@.len() != "--sandbox-engine"@.len());
        assert("--socket-path"@.len() != "--app-id"@.len());
        assert("--socket-path"@[2] != "--instance-id"@[2]);
        assert("--socket-path"@.len() != "--close-fd"@.len());
        assert("--socket-path"@.len() != "--ready-fd"@.len());
        assert("--socket-path"@.len() != "--help"@.len());
    }
    assert(spec_option_of("-e"@) == Some(Opt::SandboxEngine)) by {
        assert("-e"@[1] != "-s"@[1]);
        assert("-e"@[1] != "-S"@[1]);
        assert("-e"@[1] != "-a"@[1]);
        assert("-e"@[1] != "-i"@[1]);
        assert("-e"@[1] != "-c"@[1]);
        assert("-e"@[1] != "-r"@[1]);
        assert("-e"@[1] != "-h"@[1]);
    }
    assert(spec_option_of("--sandbox-engine"@) == Some(Opt::SandboxEngine)) by {
        assert("--sandbox-engine"@.len() != "-s"@.len());
        assert("--sandbox-engine"@.len() != "-S"@.len());
        assert("--sandbox-engine"@.len() != "-e"@.len());
        assert("--sandbox-engine"@.len() != "-a"@.len());
        assert("--sandbox-engine"@.len() != "-i"@.len());
        assert("--sandbox-engine"@.len() != "-c"@.len());
        assert("--sandbox-engine"@.len() != "-r"@.len());
        assert("--sandbox-engine"@.len() != "-h"@.len());
        assert("--sandbox-engine"@.len() != "--socket-fd"@.len());
        assert("--sandbox-engine"@.len() != "--socket-path"@.len());
        assert("--sandbox-engine"@.len() != "--app-id"@.len());
        assert("--sandbox-engine"@.len() != "--instance-id"@.len());
        assert("--sandbox-engine"@.len() != "--close-fd"@.len());
        assert("--sandbox-engine"@.len() != "--ready-fd"@.len());
        assert("--sandbox-engine"@.len() != "--help"@.len());
    }
    assert(spec_option_of("-a"@) == Some(Opt::AppId)) by {
        assert("-a"@[1] != "-s"@[1]);
        assert("-a"@[1] != "-S"@[1]);
        assert("-a"@[1] != "-e"@[1]);
        assert("-a"@[1] != "-i"@[1]);
        assert("-a"@[1] != "-c"@[1]);
        assert("-a"@[1] != "-r"@[1]);
        assert("-a"@[1] != "-h"@[1]);
    }
    assert(spec_option_of("--app-id"@) == Some(Opt::AppId)) by {
        assert("--app-id"@.len() != "-s"@.len());
        assert("--app-id"@.len() != "-S"@.len());
        assert("--app-id"@.len() != "-e"@.len());
        assert("--app-id"@.len() != "-a"@.len());
        assert("--app-id"@.len() != "-i"@.len());
        assert("--app-id"@.len() != "-c"@.len());
        assert("--app-id"@.len() != "-r"@.len());
        assert("--app-id"@.len() != "-h"@.len());
        assert("--app-id"@.len() != "--socket-fd"@.len());
        assert("--app-id"@.len() != "--socket-path"@.len());
        assert("--app-id"@.len() != "--sandbox-engine"@.len());
        assert("--app-id"@.len() != "--instance-id"@.len());
        assert("--app-id"@.len() != "--close-fd"@.len());
        assert("--app-id"@.len() != "--ready-fd"@.len());
        assert("--app-id"@.len() != "--help"@.len());
    }
    assert(spec_option_of("-i"@) == Some(Opt::InstanceId)) by {
        assert("-i"@[1] != "-s"@[1]);
        assert("-i"@[1] != "-S"@[1]);
        assert("-i"@[1] != "-e"@[1]);
        assert("-i"@[1] != "-a"@[1]);
        assert("-i"@[1] != "-c"@[1]);
        assert("-i"@[1] != "-r"@[1]);
        assert("-i"@[1] != "-h"@[1]);
    }
    assert(spec_option_of("--instance-id"@) == Some(Opt::InstanceId)) by {
        assert("--instance-id"@.len() != "-s"@.len());
        assert("--instance-id"@.len() != "-S"@.len());
        assert("--instance-id"@.len() != "-e"@.len());
        assert("--instance-id"@.len() != "-a"@.len());
        assert("--instance-id"@.len() != "-i"@.len());
        assert("--instance-id"@.len() != "-c"@.len());
        assert("--instance-id"@.len() != "-r"@.len());
        assert("--instance-id"@.len() != "-h"@.len());
        assert("--instance-id"@.len() != "--socket-fd"@.len());
        assert("--instance-id"@[2] != "--socket-path"@[2]);
        assert("--instance-id"@.len() != "--sandbox-engine"@.len());
        assert("--instance-id"@.len() != "--app-id"@.len());
        assert("--instance-id"@.len() != "--close-fd"@.len());
        assert("--instance-id"@.len() != "--ready-fd"@.len());
        assert("--instance-id"@.len() != "--help"@.len());
    }
    assert(spec_option_of("-c"@) == Some(Opt::CloseFd)) by {
        assert("-c"@[1] != "-s"@[1]);
        assert("-c"@[1] != "-S"@[1]);
        assert("-c"@[1] != "-e"@[1]);
        assert("-c"@[1] != "-a"@[1]);
        assert("-c"@[1] != "-i"@[1]);
        assert("-c"@[1] != "-r"@[1]);
        assert("-c"@[1] != "-h"@[1]);
    }
    assert(spec_option_of("--close-fd"@) == Some(Opt::CloseFd)) by {
        assert("--close-fd"@.len() != "-s"@.len());
        assert("--close-fd"@.len() != "-S"@.len());
        assert("--close-fd"@.len() != "-e"@.len());
        assert("--close-fd"@.len() != "-a"@.len());
        assert("--close-fd"@.len() != "-i"@.len());
        assert("--close-fd"@.len() != "-c"@.len());
        assert("--close-fd"@.len() != "-r"@.len());
        assert("--close-fd"@.len() != "-h"@.len());
        assert("--close-fd"@.len() != "--socket-fd"@.len());
        assert("--close-fd"@.len() != "--socket-path"@.len());
        assert("--close-fd"@.len() != "--sandbox-engine"@.len());
        assert("--close-fd"@.len() != "--app-id"@.len());
        assert("--close-fd"@.len() != "--instance-id"@.len());
        assert("--close-fd"@[2] != "--ready-fd"@[2]);
        assert("--close-fd"@.len() != "--help"@.len());
    }
    assert(spec_option_of("-r"@) == Some(Opt::ReadyFd)) by {
        assert("-r"@[1] != "-s"@[1]);
        assert("-r"@[1] != "-S"@[1]);
        assert("-r"@[1] != "-e"@[1]);
        assert("-r"@[1] != "-a"@[1]);
        assert("-r"@[1] != "-i"@[1]);
        assert("-r"@[1] != "-c"@[1]);
        assert("-r"@[1] != "-h"@[1]);
    }
    assert(spec_option_of("--ready-fd"@) == Some(Opt::ReadyFd)) by {
        assert("--ready-fd"@.len() != "-s"@.len());
        assert("--ready-fd"@.len() != "-S"@.len());
        assert("--ready-fd"@.len() != "-e"@.len());
        assert("--ready-fd"@.len() != "-a"@.len());
        assert("--ready-fd"@.len() != "-i"@.len());
        assert("--ready-fd"@.len() != "-c"@.len());
        assert("--ready-fd"@.len() != "-r"@.len());
        assert("--ready-fd"@.len() != "-h"@.len());
        assert("--ready-fd"@.len() != "--socket-fd"@.len());
        assert("--ready-fd"@.len() != "--socket-path"@.len());
        assert("--ready-fd"@.len() != "--sandbox-engine"@.len());
        assert("--ready-fd"@.len() != "--app-id"@.len());
        assert("--ready-fd"@.len() != "--instance-id"@.len());
        assert("--ready-fd"@[2] != "--close-fd"@[2]);
        assert("--ready-fd"@.len() != "--help"@.len());
    }
    assert(spec_option_of("-h"@) == Some(Opt::Help)) by {
        assert("-h"@[1] != "-s"@[1]);
        assert("-h"@[1] != "-S"@[1]);
        assert("-h"@[1] != "-e"@[1]);
        assert("-h"@[1] != "-a"@[1]);
        assert("-h"@[1] != "-i"@[1]);
        assert("-h"@[1] != "-c"@[1]);
        assert("-h"@[1] != "-r"@[1]);
    }
    assert(spec_option_of("--help"@) == Some(Opt::Help)) by {
        assert("--help"@.len() != "-s"@.len());
        assert("--help"@.len() != "-S"@.len());
        assert("--help"@.len() != "-e"@.len());
        assert("--help"@.len() != "-a"@.len());
        assert("--help"@.len() != "-i"@.len());
        assert("--help"@.len() != "-c"@.len());
        assert("--help"@.len() != "-r"@.len());
        assert("--help"@.len() != "-h"@.len());
        assert("--help"@.len() != "--socket-fd"@.len());
        assert("--help"@.len() != "--socket-path"@.len());
        assert("--help"@.len() != "--sandbox-engine"@.len());
        assert("--help"@.len() != "--app-id"@.len());
        assert("--help"@.len() != "--instance-id"@.len());
        assert("--help"@.len() != "--close-fd"@.len());
        assert("--help"@.len() != "--ready-fd"@.len());
    }
}

/// Spelling law, for the long names used in messages: each option's long
/// name reads as that option.
pub proof fn law_long_name_reads_back(o: Opt)
    ensures
        spec_option_of(spec_long_name(o)) == Some(o),
{
    law_option_spellings(spec_long_name(o));
}

/// Socket law: settings are accepted exactly when exactly one of the socket
/// fd and the socket path is given, whatever the other settings hold; a
/// refusal says whether both or neither were given.
pub proof fn law_validate_sockets(a: ArgsView, b: ArgsView)
    ensures
        spec_validate(a) is Ok <==> ((a.socket_fd is Some) != (a.socket_path is Some)),
        (a.socket_fd is None && a.socket_path is None) ==> spec_validate(a) == Err::<
            (),
            ArgErrorView,
        >(ArgErrorView::NoSocket),
        (a.socket_fd is Some && a.socket_path is Some) ==> spec_validate(a) == Err::<
            (),
            ArgErrorView,
        >(ArgErrorView::BothSockets),
        ((a.socket_fd is Some) == (b.socket_fd is Some) && (a.socket_path is Some) == (
        b.socket_path is Some)) ==> spec_validate(a) == spec_validate(b),
{
}

/// Setting law: after an accepted command line with settings `a`, an
/// option and its value set exactly that option's setting and leave the
/// others alone: an fd option takes the value read as an `i32` (or refuses
/// it as an invalid fd), `--socket-path` takes any text, and a text option
/// takes any text without NUL (or refuses it naming the option).
pub proof fn law_option_sets_its_field(raw: Seq<Seq<char>>, flag: Seq<char>, value: Seq<char>)
    requires
        raw.len() >= 1,
        spec_parse_args(raw) matches Ok(OutcomeView::Run(_)),
    ensures
        ({
            let a = spec_parse_args(raw)->Ok_0->Run_0;
            let next = spec_parse_args(raw + seq![flag, value]);
            &&& (flag == "-s"@ || flag == "--socket-fd"@) ==> next == (match spec_parse_i32(value) {
            Some(n) => Ok::<OutcomeView, ArgErrorView>(OutcomeView::Run(ArgsView { socket_fd: Some(n), ..a })),
            None => Err(ArgErrorView::InvalidFd),
        })
            &&& (flag == "-c"@ || flag == "--close-fd"@) ==> next == (match spec_parse_i32(value) {
            Some(n) => Ok::<OutcomeView, ArgErrorView>(OutcomeView::Run(ArgsView { close_fd: Some(n), ..a })),
            None => Err(ArgErrorView::InvalidFd),
        })
            &&& (flag == "-r"@ || flag == "--ready-fd"@) ==> next == (match spec_parse_i32(value) {
            Some(n) => Ok::<OutcomeView, ArgErrorView>(OutcomeView::Run(ArgsView { ready_fd: Some(n), ..a })),
            None => Err(ArgErrorView::InvalidFd),
        })
            &&& (flag == "-S"@ || flag == "--socket-path"@) ==> next == Ok::<OutcomeView, ArgErrorView>(
            OutcomeView::Run(ArgsView { socket_path: Some(value), ..a }),
        )
            &&& (flag == "-e"@ || flag == "--sandbox-engine"@) ==> next == (if value.contains('\0') {
            Err::<OutcomeView, ArgErrorView>(ArgErrorView::NulByte(TextField::SandboxEngine))
        } else {
            Ok(OutcomeView::Run(ArgsView { sandbox_engine: Some(value), ..a }))
        })
            &&& (flag == "-a"@ || flag == "--app-id"@) ==> next == (if value.contains('\0') {
            Err::<OutcomeView, ArgErrorView>(ArgErrorView::NulByte(TextField::AppId))
        } else {
            Ok(OutcomeView::Run(ArgsView { app_id: Some(value), ..a }))
        })
            &&& (flag == "-i"@ || flag == "--instance-id"@) ==> next == (if value.contains('\0') {
            Err::<OutcomeView, ArgErrorView>(ArgErrorView::NulByte(TextField::InstanceId))
        } else {
            Ok(OutcomeView::Run(ArgsView { instance_id: Some(value), ..a }))
        })
        }),
{
    law_option_spellings(flag);
    if spec_option_of(flag) matches Some(o) && o != Opt::Help {
        law_later_value_wins(raw, flag, value);
    }
}

/// Next-argument law: after an accepted command line, one more argument
/// `arg` as the last one gives: help for `-h`/`--help`; a missing-value
/// refusal naming the option for any other option; an unexpected-argument
/// refusal for any other text starting with `-`; an unexpected-positional
/// refusal for anything else. Help also ignores whatever follows it.
pub proof fn law_next_argument(raw: Seq<Seq<char>>, arg: Seq<char>, rest: Seq<Seq<char>>)
    requires
        raw.len() >= 1,
        spec_parse_args(raw) matches Ok(OutcomeView::Run(_)),
    ensures
        (arg == "-h"@ || arg == "--help"@) ==> spec_parse_args(raw + seq![arg] + rest) == Ok::<
            OutcomeView,
            ArgErrorView,
        >(OutcomeView::Help),
        (spec_option_of(arg) is Some && spec_option_of(arg)->0 != Opt::Help) ==> spec_parse_args(
            raw + seq![arg],
        ) == Err::<OutcomeView, ArgErrorView>(ArgErrorView::MissingValue(spec_option_of(arg)->0)),
        spec_option_of(arg) is None && arg.len() > 0 && arg[0] == '-' ==> spec_parse_args(
            raw + seq![arg] + rest,
        ) == Err::<OutcomeView, ArgErrorView>(ArgErrorView::UnexpectedArgument(arg)),
        spec_option_of(arg) is None && !(arg.len() > 0 && arg[0] == '-') ==> spec_parse_args(
            raw + seq![arg] + rest,
        ) == Err::<OutcomeView, ArgErrorView>(ArgErrorView::UnexpectedPositional(arg)),
{
    law_option_spellings(arg);
    let n = raw.len() as int;
    let all = raw + seq![arg] + rest;
    assert(all =~= raw + (seq![arg] + rest));
    law_parse_continues(raw, seq![arg] + rest);
    assert(all[n] == arg);
    let one = raw + seq![arg];
    law_parse_continues(raw, seq![arg]);
    assert(one[n] == arg);
    assert(one.len() == n + 1);
}

} // verus!
