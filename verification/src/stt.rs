//! The local speech servers: how their health is told and what the events
//! of the server process lead to.

use vstd::prelude::*;
use vstd::string::StringExecFns;

verus! {

/// How often the server's start-up is tried again.
pub const INIT_RETRY_TIMES: u32 = 20;

/// Time between two tries, in milliseconds.
pub const INIT_RETRY_DELAY_MS: u64 = 500;

/// What a server answers to a question for its health.
#[derive(Clone, Copy, Debug, PartialEq, Eq)]
pub enum ServerHealth {
    Unreachable,
    Loading,
    Ready,
}

/// What the external server says of its model.
#[derive(Clone, Copy, Debug, PartialEq, Eq)]
pub enum ModelState {
    Unloaded,
    Loading,
    Loaded,
}

/// A message to the external server's actor.
#[derive(Clone, Debug, PartialEq, Eq)]
pub enum ExternalSTTMessage {
    GetHealth,
    ProcessTerminated(String),
}

/// What the external server is started with.
pub struct ExternalSTTArgs {
    pub api_key: String,
    pub models_dir: String,
}

/// What the external server's actor keeps.
pub struct ExternalSTTState {
    pub base_url: String,
    pub api_key: Option<String>,
    pub models_dir: String,
}

/// What the server process did.
#[derive(Clone, Debug, PartialEq, Eq)]
pub enum CommandEvent {
    /// It wrote to its output or its error stream.
    Output(Vec<u8>),
    /// It ended; the text tells how.
    Terminated(String),
    /// It failed.
    Error(String),
    /// Its events have come to an end.
    Closed,
    /// Anything else.
    Other,
}

/// What the watching task does with an event of the process.
#[derive(Clone, Debug, PartialEq, Eq)]
pub enum WatchStep {
    /// Log the output and go on.
    Log(Vec<u8>),
    /// Report to the actor and leave.
    Report(ExternalSTTMessage),
    /// Leave.
    Leave,
    /// Go on.
    Continue,
}

/// What the host does after a message to a server's actor.
#[derive(Clone, Debug, PartialEq, Eq)]
pub enum ServerAction {
    /// Stop the actor, with the reason.
    Stop(String),
    /// Ask the server for its state and answer with its health.
    AskStatus,
    /// Answer with the address and the health.
    Reply(String, ServerHealth),
    /// Fail with the error.
    Fail(String),
}

/// The decimal digit for `d`.
pub open spec fn digit(d: nat) -> char
    recommends
        d < 10,
{
    if d == 0 {
        '0'
    } else if d == 1 {
        '1'
    } else if d == 2 {
        '2'
    } else if d == 3 {
        '3'
    } else if d == 4 {
        '4'
    } else if d == 5 {
        '5'
    } else if d == 6 {
        '6'
    } else if d == 7 {
        '7'
    } else if d == 8 {
        '8'
    } else {
        '9'
    }
}

/// `n` in decimal, without leading zeros.
pub open spec fn decimal(n: nat) -> Seq<char>
    decreases n,
{
    if n < 10 {
        seq![digit(n)]
    } else {
        decimal(n / 10).push(digit(n % 10))
    }
}

/// The text of one decimal digit.
fn digit_str(d: u64) -> (out: &'static str)
    requires
        d < 10,
    ensures
        out@ == seq![digit(d as nat)],
{
    proof {
        reveal_strlit("0");
        reveal_strlit("1");
        reveal_strlit("2");
        reveal_strlit("3");
        reveal_strlit("4");
        reveal_strlit("5");
        reveal_strlit("6");
        reveal_strlit("7");
        reveal_strlit("8");
        reveal_strlit("9");
    }
    let out = if d == 0 {
        "0"
    } else if d == 1 {
        "1"
    } else if d == 2 {
        "2"
    } else if d == 3 {
        "3"
    } else if d == 4 {
        "4"
    } else if d == 5 {
        "5"
    } else if d == 6 {
        "6"
    } else if d == 7 {
        "7"
    } else if d == 8 {
        "8"
    } else {
        "9"
    };
    assert(out@ =~= seq![digit(d as nat)]);
    out
}

/// Appends `n` in decimal to `out`.
pub fn push_decimal(out: &mut String, n: u64)
    ensures
        final(out)@ == old(out)@ + decimal(n as nat),
    decreases n,
{
    if n >= 10 {
        push_decimal(out, n / 10);
    }
    let ghost before = out@;
    out.append(digit_str(n % 10));
    proof {
        if n >= 10 {
            assert(before + seq![digit((n % 10) as nat)] =~= old(out)@ + decimal(n as nat));
        }
    }
}

/// The address of a server that listens on `port` of this machine.
pub open spec fn local_url(host: Seq<char>, port: u16) -> Seq<char> {
    "http://"@ + host + ":"@ + decimal(port as nat)
}

/// Builds the address of a server that listens on `port` of `host`.
fn make_local_url(host: &str, port: u16) -> (out: String)
    ensures
        out@ == local_url(host@, port),
{
    let mut out = String::from_str("http://");
    out.append(host);
    out.append(":");
    push_decimal(&mut out, port as u64);
    out
}

/// The health that the external server's answer stands for: ready once the
/// model is loaded, loading while it loads, unreachable otherwise and where
/// the server gave no answer.
pub fn health_of(status: Option<ModelState>) -> (out: ServerHealth)
    ensures
        out == match status {
            Some(ModelState::Loading) => ServerHealth::Loading,
            Some(ModelState::Loaded) => ServerHealth::Ready,
            _ => ServerHealth::Unreachable,
        },
{
    match status {
        Some(ModelState::Loading) => ServerHealth::Loading,
        Some(ModelState::Loaded) => ServerHealth::Ready,
        _ => ServerHealth::Unreachable,
    }
}

/// Whether the server's start-up is tried once more after `failures` failed
/// tries.
pub fn retries_left(failures: u32) -> (again: bool)
    ensures
        again == (failures <= INIT_RETRY_TIMES),
{
    failures <= INIT_RETRY_TIMES
}

/// The actor of a speech server that runs as a process of its own.
pub struct ExternalSTTActor;

impl ExternalSTTActor {
    /// The name under which the actor is known.
    pub fn name() -> (n: &'static str)
        ensures
            n@ == "external_stt"@,
    {
        "external_stt"
    }

    /// The state the actor starts with, the server listening on `port`.
    pub fn pre_start(args: ExternalSTTArgs, port: u16) -> (st: ExternalSTTState)
        ensures
            st.base_url@ == local_url("localhost"@, port),
            st.api_key == Some(args.api_key),
            st.models_dir == args.models_dir,
    {
        ExternalSTTState {
            base_url: make_local_url("localhost", port),
            api_key: Some(args.api_key),
            models_dir: args.models_dir,
        }
    }

    /// What the watching task does with an event of the process.
    pub fn watch(event: CommandEvent) -> (step: WatchStep)
        ensures
            step == match event {
                CommandEvent::Output(bytes) => WatchStep::Log(bytes),
                CommandEvent::Terminated(how) => WatchStep::Report(
                    ExternalSTTMessage::ProcessTerminated(how),
                ),
                CommandEvent::Error(error) => WatchStep::Report(
                    ExternalSTTMessage::ProcessTerminated(error),
                ),
                CommandEvent::Closed => WatchStep::Leave,
                CommandEvent::Other => WatchStep::Continue,
            },
    {
        match event {
            CommandEvent::Output(bytes) => WatchStep::Log(bytes),
            CommandEvent::Terminated(how) => WatchStep::Report(
                ExternalSTTMessage::ProcessTerminated(how),
            ),
            CommandEvent::Error(error) => WatchStep::Report(
                ExternalSTTMessage::ProcessTerminated(error),
            ),
            CommandEvent::Closed => WatchStep::Leave,
            CommandEvent::Other => WatchStep::Continue,
        }
    }

    /// Takes in one message: the end of the process stops the actor; a
    /// question for the health is passed on to the server.
    pub fn handle(message: ExternalSTTMessage) -> (action: ServerAction)
        ensures
            action == match message {
                ExternalSTTMessage::ProcessTerminated(e) => ServerAction::Stop(e),
                ExternalSTTMessage::GetHealth => ServerAction::AskStatus,
            },
    {
        match message {
            ExternalSTTMessage::ProcessTerminated(e) => ServerAction::Stop(e),
            ExternalSTTMessage::GetHealth => ServerAction::AskStatus,
        }
    }
}

/// A message to the built-in server's actor.
#[derive(Clone, Debug, PartialEq, Eq)]
pub enum InternalSTTMessage {
    GetHealth,
    ServerError(String),
}

/// What the built-in server is started with.
pub struct InternalSTTArgs {
    pub model_file_name: String,
    pub model_cache_dir: String,
}

/// What the built-in server's actor keeps.
pub struct InternalSTTState {
    pub base_url: String,
}

/// The actor of a speech server that runs within the application.
pub struct InternalSTTActor;

impl InternalSTTActor {
    /// The name under which the actor is known.
    pub fn name() -> (n: &'static str)
        ensures
            n@ == "internal_stt"@,
    {
        "internal_stt"
    }

    /// The state the actor starts with, the server bound to `port` of the
    /// loopback address.
    pub fn pre_start(port: u16) -> (st: InternalSTTState)
        ensures
            st.base_url@ == local_url("127.0.0.1"@, port),
    {
        InternalSTTState { base_url: make_local_url("127.0.0.1", port) }
    }

    /// Takes in one message: the server is ready whenever it is asked; an
    /// error of the server fails the actor.
    pub fn handle(st: &InternalSTTState, message: InternalSTTMessage) -> (action: ServerAction)
        ensures
            action == match message {
                InternalSTTMessage::GetHealth => ServerAction::Reply(
                    st.base_url,
                    ServerHealth::Ready,
                ),
                InternalSTTMessage::ServerError(e) => ServerAction::Fail(e),
            },
    {
        match message {
            InternalSTTMessage::GetHealth => ServerAction::Reply(
                st.base_url.clone(),
                ServerHealth::Ready,
            ),
            InternalSTTMessage::ServerError(e) => ServerAction::Fail(e),
        }
    }
}

} // verus!
