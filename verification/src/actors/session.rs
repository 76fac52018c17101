//! The session supervisor: what to start, in which order, what to do when a
//! child stops, and how control messages are answered.

use vstd::prelude::*;
use crate::transcript::text::str_eq;

verus! {

/// How often one child is started again before the session is given up.
pub const MAX_RESTART_ATTEMPTS: u32 = 3;

/// Deadline of a question put to a child, in milliseconds.
pub const RPC_TIMEOUT_MS: u64 = 100;

/// How long a child is given to stop, in seconds.
pub const STOP_WAIT_SECS: u64 = 3;

/// Pause between stopping and starting all children again, in milliseconds.
pub const RESTART_PAUSE_MS: u64 = 250;

/// The children of a session.
#[derive(Clone, Copy, Debug, PartialEq, Eq)]
pub enum Child {
    Processor,
    Source,
    Recorder,
    Listener,
}

/// What the user interface is told.
#[derive(Clone, Copy, Debug, PartialEq, Eq)]
pub enum SessionEvent {
    RunningActive,
    Inactive,
    MicMuted { value: bool },
    SpeakerMuted { value: bool },
}

/// A request to the source.
#[derive(Clone, Debug, PartialEq, Eq)]
pub enum SourceRequest {
    SetMicMute(bool),
    SetSpkMute(bool),
    SetMicDevice(Option<String>),
}

/// A question to the source.
#[derive(Clone, Copy, Debug, PartialEq, Eq)]
pub enum SourceQuery {
    MicMute,
    SpkMute,
    MicDevice,
}

/// A control message to the session.
#[derive(Clone, Debug, PartialEq, Eq)]
pub enum SessionMsg {
    SetMicMute(bool),
    SetSpeakerMute(bool),
    GetMicMute,
    GetSpeakerMute,
    GetMicDeviceName,
    ChangeMicDevice(Option<String>),
}

/// One step for the host to carry out.
#[derive(Clone, Debug, PartialEq, Eq)]
pub enum SessionAction {
    /// Write the start time to the session record.
    MarkRecordStart,
    /// Write the end time to the session record.
    MarkRecordEnd,
    /// Disable or enable the tray's start entry.
    SetStartDisabled(bool),
    /// Hide the floating control window.
    HideControlWindow,
    /// Cancel the token that every long-running loop observes.
    CancelToken,
    /// Start a child, linked to the supervisor.
    Spawn(Child),
    /// Stop a child and wait for it.
    Stop(Child),
    /// Hand the processor its recorder and listener.
    AttachProcessor,
    /// End the session.
    StopSession,
    /// Tell the user interface.
    Emit(SessionEvent),
    /// Pass a request on to the source.
    CastSource(SourceRequest),
    /// Put a question to the source, to be answered within the deadline.
    AskSource(SourceQuery, u64),
    /// Answer a question about a mute flag.
    ReplyMute(bool),
    /// Answer the question for the microphone's name.
    ReplyDevice(Option<String>),
}

/// What the session store holds of the user's settings.
#[derive(Clone, Debug)]
pub struct UserConfig {
    pub save_recordings: Option<bool>,
    pub spoken_languages: Vec<String>,
}

/// What a session is started with.
pub struct SessionArgs {
    pub session_id: String,
}

/// How often each child has been started again.
#[derive(Clone, Copy, Debug)]
pub struct RestartCounters {
    pub processor: u32,
    pub source: u32,
    pub recorder: u32,
    pub listener: u32,
}

impl RestartCounters {
    /// The count kept for `child`.
    pub open spec fn of(self, child: Child) -> u32 {
        match child {
            Child::Processor => self.processor,
            Child::Source => self.source,
            Child::Recorder => self.recorder,
            Child::Listener => self.listener,
        }
    }

    /// The counters with the count of `child` set to `n`.
    pub open spec fn with(self, child: Child, n: u32) -> RestartCounters {
        match child {
            Child::Processor => RestartCounters { processor: n, ..self },
            Child::Source => RestartCounters { source: n, ..self },
            Child::Recorder => RestartCounters { recorder: n, ..self },
            Child::Listener => RestartCounters { listener: n, ..self },
        }
    }

    /// No child has been started again more often than allowed.
    pub open spec fn within_limit(self) -> bool {
        forall|child: Child| self.of(child) <= MAX_RESTART_ATTEMPTS
    }

    /// Reads the count kept for `child`.
    fn get(&self, child: Child) -> (n: u32)
        ensures
            n == self.of(child),
    {
        match child {
            Child::Processor => self.processor,
            Child::Source => self.source,
            Child::Recorder => self.recorder,
            Child::Listener => self.listener,
        }
    }

    /// Sets the count kept for `child`.
    fn set(&mut self, child: Child, n: u32)
        ensures
            *final(self) == old(self).with(child, n),
    {
        match child {
            Child::Processor => self.processor = n,
            Child::Source => self.source = n,
            Child::Recorder => self.recorder = n,
            Child::Listener => self.listener = n,
        }
    }
}

/// What the supervisor keeps while a session runs.
pub struct SessionState {
    pub session_id: String,
    pub session_start_ts_ms: u64,
    pub languages: Vec<String>,
    pub onboarding: bool,
    pub record_enabled: bool,
    pub restart_attempts: RestartCounters,
    pub stopping: bool,
}

impl SessionState {
    /// No child has been started again more often than allowed.
    pub open spec fn wf(self) -> bool {
        self.restart_attempts.within_limit()
    }
}

/// What happened to a child.
#[derive(Clone, Copy, Debug, PartialEq, Eq)]
pub enum ChildEvent {
    Started(Child),
    Failed(Child),
    Terminated(Child),
}

impl ChildEvent {
    /// The child that stopped, if the event says one did.
    pub open spec fn stopped(self) -> Option<Child> {
        match self {
            ChildEvent::Started(_) => None,
            ChildEvent::Failed(c) => Some(c),
            ChildEvent::Terminated(c) => Some(c),
        }
    }
}

/// Whether recordings are kept: yes unless the settings say no.
pub open spec fn record_enabled_of(config: Option<UserConfig>) -> bool {
    match config {
        Some(c) => match c.save_recordings {
            Some(b) => b,
            None => true,
        },
        None => true,
    }
}

/// The languages spoken: those of the settings, English where there are no
/// settings.
pub open spec fn languages_of(config: Option<UserConfig>) -> Seq<Seq<char>> {
    match config {
        Some(c) => c.spoken_languages@.map_values(|l: String| l@),
        None => seq!["en"@],
    }
}

/// The steps that start a session.
pub open spec fn startup_plan(record_enabled: bool) -> Seq<SessionAction> {
    let head = seq![
        SessionAction::MarkRecordStart,
        SessionAction::Spawn(Child::Processor),
        SessionAction::Spawn(Child::Source),
    ];
    let recorder = if record_enabled {
        seq![SessionAction::Spawn(Child::Recorder)]
    } else {
        Seq::empty()
    };
    let tail = seq![
        SessionAction::Spawn(Child::Listener),
        SessionAction::AttachProcessor,
        SessionAction::Emit(SessionEvent::RunningActive),
        SessionAction::SetStartDisabled(true),
    ];
    head + recorder + tail
}

/// The steps that end a session.
pub open spec fn shutdown_plan() -> Seq<SessionAction> {
    seq![
        SessionAction::CancelToken,
        SessionAction::Stop(Child::Processor),
        SessionAction::Stop(Child::Source),
        SessionAction::Stop(Child::Listener),
        SessionAction::Stop(Child::Recorder),
        SessionAction::MarkRecordEnd,
        SessionAction::Emit(SessionEvent::Inactive),
        SessionAction::SetStartDisabled(false),
        SessionAction::HideControlWindow,
    ]
}

/// The steps that bring a stopped child back. A new processor gets its
/// recorder and listener again, and the source is rebuilt so that it finds
/// the new processor.
pub open spec fn respawn_plan(child: Child) -> Seq<SessionAction> {
    match child {
        Child::Processor => seq![
            SessionAction::Spawn(Child::Processor),
            SessionAction::AttachProcessor,
            SessionAction::Stop(Child::Source),
            SessionAction::Spawn(Child::Source),
        ],
        _ => seq![SessionAction::Spawn(child)],
    }
}

/// Whether a stopped child is started again: the session is not ending, the
/// child has restarts left, and a recorder is only brought back while
/// recordings are kept.
pub open spec fn is_respawned(state: SessionState, child: Child) -> bool {
    &&& !state.stopping
    &&& state.restart_attempts.of(child) < MAX_RESTART_ATTEMPTS
    &&& (child == Child::Recorder ==> state.record_enabled)
}

/// Whether a stopped child ends the session: it has no restarts left.
pub open spec fn ends_session(state: SessionState, child: Child) -> bool {
    &&& !state.stopping
    &&& state.restart_attempts.of(child) >= MAX_RESTART_ATTEMPTS
    &&& (child == Child::Recorder ==> state.record_enabled)
}

/// The supervisor's state after a child's start or stop: a child that is
/// started again counts one more restart; one that ends the session marks
/// the session as ending; anything else changes nothing.
pub open spec fn after_child_event(state: SessionState, event: ChildEvent) -> SessionState {
    match event.stopped() {
        Some(child) => if is_respawned(state, child) {
            SessionState {
                restart_attempts: state.restart_attempts.with(
                    child,
                    (state.restart_attempts.of(child) + 1) as u32,
                ),
                ..state
            }
        } else if ends_session(state, child) {
            SessionState { stopping: true, ..state }
        } else {
            state
        },
        None => state,
    }
}

/// The supervisor's state after a run of child events.
pub open spec fn after_child_events(state: SessionState, events: Seq<ChildEvent>) -> SessionState
    decreases events.len(),
{
    if events.len() == 0 {
        state
    } else {
        after_child_event(after_child_events(state, events.drop_last()), events.last())
    }
}

/// The steps taken on a child's start or stop.
pub open spec fn child_event_plan(state: SessionState, event: ChildEvent) -> Seq<SessionAction> {
    match event.stopped() {
        Some(child) => if is_respawned(state, child) {
            respawn_plan(child)
        } else if ends_session(state, child) {
            seq![SessionAction::StopSession]
        } else {
            Seq::empty()
        },
        None => Seq::empty(),
    }
}

/// The steps taken on a control message. `source_present` tells whether the
/// source is running.
pub open spec fn control_plan(msg: SessionMsg, source_present: bool) -> Seq<SessionAction> {
    match msg {
        SessionMsg::SetMicMute(muted) => (if source_present {
            seq![SessionAction::CastSource(SourceRequest::SetMicMute(muted))]
        } else {
            Seq::empty()
        }) + seq![SessionAction::Emit(SessionEvent::MicMuted { value: muted })],
        SessionMsg::SetSpeakerMute(muted) => (if source_present {
            seq![SessionAction::CastSource(SourceRequest::SetSpkMute(muted))]
        } else {
            Seq::empty()
        }) + seq![SessionAction::Emit(SessionEvent::SpeakerMuted { value: muted })],
        SessionMsg::GetMicMute => if source_present {
            seq![SessionAction::AskSource(SourceQuery::MicMute, RPC_TIMEOUT_MS)]
        } else {
            seq![SessionAction::ReplyMute(false)]
        },
        SessionMsg::GetSpeakerMute => if source_present {
            seq![SessionAction::AskSource(SourceQuery::SpkMute, RPC_TIMEOUT_MS)]
        } else {
            seq![SessionAction::ReplyMute(false)]
        },
        SessionMsg::GetMicDeviceName => if source_present {
            seq![SessionAction::AskSource(SourceQuery::MicDevice, RPC_TIMEOUT_MS)]
        } else {
            seq![SessionAction::ReplyDevice(None)]
        },
        SessionMsg::ChangeMicDevice(device) => if source_present {
            seq![SessionAction::CastSource(SourceRequest::SetMicDevice(device))]
        } else {
            Seq::empty()
        },
    }
}

/// The supervisor of a session.
pub struct SessionActor;

impl SessionActor {
    /// The name under which the supervisor is known.
    pub fn name() -> (n: &'static str)
        ensures
            n@ == "session"@,
    {
        "session"
    }

    /// Prepares a session that starts at `now_ms`: the state to keep and the
    /// steps to take, in order.
    pub fn pre_start(
        args: SessionArgs,
        onboarding_session_id: &str,
        config: Option<UserConfig>,
        now_ms: u64,
    ) -> (out: (SessionState, Vec<SessionAction>))
        ensures
            out.0.wf(),
            out.0.session_id == args.session_id,
            out.0.session_start_ts_ms == now_ms,
            out.0.onboarding == (args.session_id@ == onboarding_session_id@),
            out.0.record_enabled == record_enabled_of(config),
            out.0.languages@.map_values(|l: String| l@) == languages_of(config),
            out.0.restart_attempts == (RestartCounters {
                processor: 0,
                source: 0,
                recorder: 0,
                listener: 0,
            }),
            !out.0.stopping,
            out.1@ == startup_plan(record_enabled_of(config)),
    {
        let onboarding = str_eq(args.session_id.as_str(), onboarding_session_id);
        let (record_enabled, languages) = match config {
            Some(c) => {
                let enabled = match c.save_recordings {
                    Some(b) => b,
                    None => true,
                };
                (enabled, c.spoken_languages)
            },
            None => {
                let mut languages: Vec<String> = Vec::new();
                languages.push("en".to_owned());
                assert(languages@.map_values(|l: String| l@) =~= seq!["en"@]);
                (true, languages)
            },
        };
        let state = SessionState {
            session_id: args.session_id,
            session_start_ts_ms: now_ms,
            languages,
            onboarding,
            record_enabled,
            restart_attempts: RestartCounters { processor: 0, source: 0, recorder: 0, listener: 0 },
            stopping: false,
        };
        let mut actions = Self::start_all_actors(&state);
        let mut plan: Vec<SessionAction> = Vec::new();
        plan.push(SessionAction::MarkRecordStart);
        plan.append(&mut actions);
        plan.push(SessionAction::Emit(SessionEvent::RunningActive));
        plan.push(SessionAction::SetStartDisabled(true));
        assert(plan@ =~= startup_plan(record_enabled));
        (state, plan)
    }

    /// The children to start, in order: processor, source, recorder where
    /// recordings are kept, listener; then the processor is wired up.
    pub fn start_all_actors(state: &SessionState) -> (out: Vec<SessionAction>)
        ensures
            out@ == startup_plan(state.record_enabled).subrange(
                1,
                startup_plan(state.record_enabled).len() - 2,
            ),
    {
        let mut out: Vec<SessionAction> = Vec::new();
        out.push(SessionAction::Spawn(Child::Processor));
        out.push(SessionAction::Spawn(Child::Source));
        if state.record_enabled {
            out.push(SessionAction::Spawn(Child::Recorder));
        }
        out.push(SessionAction::Spawn(Child::Listener));
        out.push(SessionAction::AttachProcessor);
        assert(out@ =~= startup_plan(state.record_enabled).subrange(
            1,
            startup_plan(state.record_enabled).len() - 2,
        ));
        out
    }

    /// The steps taken on a control message.
    pub fn handle(message: SessionMsg, source_present: bool) -> (out: Vec<SessionAction>)
        ensures
            out@ == control_plan(message, source_present),
    {
        let mut out: Vec<SessionAction> = Vec::new();
        match message {
            SessionMsg::SetMicMute(muted) => {
                if source_present {
                    out.push(SessionAction::CastSource(SourceRequest::SetMicMute(muted)));
                }
                out.push(SessionAction::Emit(SessionEvent::MicMuted { value: muted }));
            },
            SessionMsg::SetSpeakerMute(muted) => {
                if source_present {
                    out.push(SessionAction::CastSource(SourceRequest::SetSpkMute(muted)));
                }
                out.push(SessionAction::Emit(SessionEvent::SpeakerMuted { value: muted }));
            },
            SessionMsg::GetMicMute => {
                if source_present {
                    out.push(SessionAction::AskSource(SourceQuery::MicMute, RPC_TIMEOUT_MS));
                } else {
                    out.push(SessionAction::ReplyMute(false));
                }
            },
            SessionMsg::GetSpeakerMute => {
                if source_present {
                    out.push(SessionAction::AskSource(SourceQuery::SpkMute, RPC_TIMEOUT_MS));
                } else {
                    out.push(SessionAction::ReplyMute(false));
                }
            },
            SessionMsg::GetMicDeviceName => {
                if source_present {
                    out.push(SessionAction::AskSource(SourceQuery::MicDevice, RPC_TIMEOUT_MS));
                } else {
                    out.push(SessionAction::ReplyDevice(None));
                }
            },
            SessionMsg::ChangeMicDevice(device) => {
                if source_present {
                    out.push(SessionAction::CastSource(SourceRequest::SetMicDevice(device)));
                }
            },
        }
        assert(out@ =~= control_plan(message, source_present));
        out
    }

    /// The mute flag to report: the source's answer, or `false` where the
    /// source did not answer in time.
    pub fn mute_answer(answer: Option<bool>) -> (muted: bool)
        ensures
            muted == match answer {
                Some(b) => b,
                None => false,
            },
    {
        match answer {
            Some(b) => b,
            None => false,
        }
    }

    /// The microphone name to report: the source's answer, or none where
    /// the source did not answer in time.
    pub fn device_answer(answer: Option<Option<String>>) -> (name: Option<String>)
        ensures
            name == match answer {
                Some(n) => n,
                None => None::<String>,
            },
    {
        match answer {
            Some(n) => n,
            None => None,
        }
    }

    /// Reacts to a child's start or stop.
    ///
    /// A child that stopped while the session is not ending is started again
    /// if it has restarts left, and its count goes up by one; without
    /// restarts left the session ends. A recorder is left alone once
    /// recordings are off. Nothing happens while the session is ending.
    pub fn handle_supervisor_evt(state: &mut SessionState, event: ChildEvent) -> (out: Vec<
        SessionAction,
    >)
        requires
            old(state).wf(),
        ensures
            final(state).wf(),
            *final(state) == after_child_event(*old(state), event),
            out@ == child_event_plan(*old(state), event),
    {
        let mut out: Vec<SessionAction> = Vec::new();
        let child = match event {
            ChildEvent::Started(_) => {
                return out;
            },
            ChildEvent::Failed(c) => c,
            ChildEvent::Terminated(c) => c,
        };
        let is_recorder = match child {
            Child::Recorder => true,
            _ => false,
        };
        if state.stopping || (is_recorder && !state.record_enabled) {
            return out;
        }
        let attempts = state.restart_attempts.get(child);
        if attempts < MAX_RESTART_ATTEMPTS {
            let ghost before = state.restart_attempts;
            state.restart_attempts.set(child, attempts + 1);
            assert(state.restart_attempts.within_limit()) by {
                assert forall|c: Child| state.restart_attempts.of(c) <= MAX_RESTART_ATTEMPTS by {
                    assert(before.of(c) <= MAX_RESTART_ATTEMPTS);
                }
            }
            match child {
                Child::Processor => {
                    out.push(SessionAction::Spawn(Child::Processor));
                    out.push(SessionAction::AttachProcessor);
                    out.push(SessionAction::Stop(Child::Source));
                    out.push(SessionAction::Spawn(Child::Source));
                },
                _ => {
                    out.push(SessionAction::Spawn(child));
                },
            }
            assert(out@ =~= respawn_plan(child));
        } else {
            state.stopping = true;
            out.push(SessionAction::StopSession);
            assert(out@ =~= seq![SessionAction::StopSession]);
        }
        out
    }

    /// Ends the session: the steps to take, in order.
    pub fn post_stop(state: &mut SessionState) -> (out: Vec<SessionAction>)
        ensures
            out@ == shutdown_plan(),
            final(state).stopping,
            final(state).restart_attempts == old(state).restart_attempts,
            final(state).session_id == old(state).session_id,
    {
        state.stopping = true;
        let mut out = Self::stop_all_actors();
        out.insert(0, SessionAction::CancelToken);
        out.push(SessionAction::MarkRecordEnd);
        out.push(SessionAction::Emit(SessionEvent::Inactive));
        out.push(SessionAction::SetStartDisabled(false));
        out.push(SessionAction::HideControlWindow);
        assert(out@ =~= shutdown_plan());
        out
    }

    /// The children to stop: processor, source, listener, recorder.
    pub fn stop_all_actors() -> (out: Vec<SessionAction>)
        ensures
            out@ == shutdown_plan().subrange(1, 5),
    {
        let mut out: Vec<SessionAction> = Vec::new();
        out.push(SessionAction::Stop(Child::Processor));
        out.push(SessionAction::Stop(Child::Source));
        out.push(SessionAction::Stop(Child::Listener));
        out.push(SessionAction::Stop(Child::Recorder));
        assert(out@ =~= shutdown_plan().subrange(1, 5));
        out
    }
}

/// Whether a session runs, and which.
#[derive(Clone, Debug, PartialEq, Eq)]
pub enum Lifecycle {
    Inactive,
    RunningActive { session_id: String },
}

/// What a request to start a session leads to.
#[derive(Clone, Copy, Debug, PartialEq, Eq)]
pub enum StartOutcome {
    /// The session starts.
    Started,
    /// That session runs already: nothing happens.
    AlreadyRunning,
    /// Another session runs: it is stopped, then the new one starts.
    Restarted,
}

impl Lifecycle {
    /// The session that runs, if one does.
    pub open spec fn running(self) -> Option<Seq<char>> {
        match self {
            Lifecycle::Inactive => None,
            Lifecycle::RunningActive { session_id } => Some(session_id@),
        }
    }

    /// Takes in a request to start session `session_id`.
    pub fn start(&mut self, session_id: String) -> (outcome: StartOutcome)
        ensures
            final(self).running() == Some(session_id@),
            outcome == match old(self).running() {
                None => StartOutcome::Started,
                Some(id) => if id == session_id@ {
                    StartOutcome::AlreadyRunning
                } else {
                    StartOutcome::Restarted
                },
            },
            outcome is AlreadyRunning ==> *final(self) == *old(self),
    {
        let outcome = match &*self {
            Lifecycle::Inactive => StartOutcome::Started,
            Lifecycle::RunningActive { session_id: current } => {
                if str_eq(current.as_str(), session_id.as_str()) {
                    StartOutcome::AlreadyRunning
                } else {
                    StartOutcome::Restarted
                }
            },
        };
        match outcome {
            StartOutcome::AlreadyRunning => {},
            _ => {
                *self = Lifecycle::RunningActive { session_id };
            },
        }
        outcome
    }

    /// Takes in a request to stop, or the end of a session that gave up on
    /// a child. Returns whether a session was running.
    pub fn stop(&mut self) -> (was_running: bool)
        ensures
            final(self).running() is None,
            was_running == old(self).running() is Some,
    {
        let was_running = match &*self {
            Lifecycle::Inactive => false,
            Lifecycle::RunningActive { .. } => true,
        };
        *self = Lifecycle::Inactive;
        was_running
    }
}

/// Through any run of child events the restart count of every child stays
/// within the limit, and a child is only ever started again while its count
/// is below it.
pub proof fn law_restarts_bounded(state: SessionState, events: Seq<ChildEvent>, child: Child)
    requires
        state.wf(),
    ensures
        after_child_events(state, events).wf(),
        after_child_events(state, events).restart_attempts.of(child) <= MAX_RESTART_ATTEMPTS,
        is_respawned(after_child_events(state, events), child) ==> after_child_events(
            state,
            events,
        ).restart_attempts.of(child) < MAX_RESTART_ATTEMPTS,
    decreases events.len(),
{
    if events.len() > 0 {
        let before = after_child_events(state, events.drop_last());
        law_restarts_bounded(state, events.drop_last(), child);
        let after = after_child_event(before, events.last());
        assert forall|c: Child| after.restart_attempts.of(c) <= MAX_RESTART_ATTEMPTS by {
            assert(before.restart_attempts.of(c) <= MAX_RESTART_ATTEMPTS);
        }
    }
}

/// Once a child has used up its restarts, its next stop ends the session,
/// and no child is started again after that.
pub proof fn law_exhausted_child_ends_session(state: SessionState, child: Child, later: ChildEvent)
    requires
        ends_session(state, child),
    ensures
        after_child_event(state, ChildEvent::Failed(child)).stopping,
        child_event_plan(state, ChildEvent::Failed(child)) == seq![SessionAction::StopSession],
        child_event_plan(after_child_event(state, ChildEvent::Failed(child)), later)
            == Seq::<SessionAction>::empty(),
{
}

} // verus!
