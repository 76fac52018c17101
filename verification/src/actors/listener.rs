//! The bridge to the speech backend: what each message to the listener
//! leads to, and how what the stream yields becomes such a message.

use vstd::prelude::*;
use vstd::string::StringExecFns;
use crate::transcript::manager::{
    channel_words, finals_of, partials_after, Diff, StreamResponse, TranscriptManager,
    WordsByChannel,
};
use crate::transcript::word::{duplicate_words, words_view, Word};

verus! {

broadcast use vstd::std_specs::hash::group_hash_axioms;

/// How long the stream may stay silent before it is given up, in seconds.
pub const LISTEN_STREAM_TIMEOUT_SECS: u64 = 15 * 60;

/// Frames that may wait for the stream before new ones are dropped.
pub const OUTBOUND_CAPACITY: usize = 32;

/// How long the backend holds a partial before it promotes it, in
/// milliseconds: short in the onboarding session, to show quick answers.
pub fn redemption_time_ms(onboarding: bool) -> (ms: u64)
    ensures
        ms == if onboarding {
            60u64
        } else {
            400u64
        },
{
    if onboarding {
        60
    } else {
        400
    }
}

/// The text that asks the backend to flush before the stream closes.
pub fn finalize_text() -> (text: &'static str)
    ensures
        text@ == "{\"type\":\"Finalize\"}"@,
{
    "{\"type\":\"Finalize\"}"
}

/// A message to the listener.
pub enum ListenerMsg<C> {
    /// A frame to send: microphone bytes, then speaker bytes.
    Audio(Vec<u8>, Vec<u8>),
    /// A response of the backend.
    StreamResponse(StreamResponse<C>),
    /// The stream failed on the way.
    StreamError(String),
    /// The backend closed the stream.
    StreamEnded,
    /// The stream stayed silent for too long.
    StreamTimeout,
    /// The stream could not be opened.
    StreamStartFailed(String),
}

/// What the listener is started with.
pub struct ListenerArgs<C> {
    pub session_id: String,
    /// When the session started, in milliseconds since the Unix epoch.
    pub session_start_ts_ms: u64,
    pub languages: Vec<String>,
    pub onboarding: bool,
    pub partial_words_by_channel: WordsByChannel<C>,
}

/// What the listener keeps.
pub struct ListenerState<C> {
    pub session_id: String,
    pub languages: Vec<String>,
    pub onboarding: bool,
    pub manager: TranscriptManager<C>,
}

/// What the host does after a message to the listener.
pub enum ListenerAction<C> {
    /// Offer the frame to the stream; drop it if the stream is behind.
    SendAudio(Vec<u8>, Vec<u8>),
    /// Announce the pending words, append `persist` to the session's words,
    /// then announce the final words.
    Deliver { diff: Diff<C>, persist: Vec<Word<C>> },
    /// The response is malformed: leave it.
    Skip,
    /// Stop the listener, with the reason if there is one to report.
    Stop(Option<String>),
}

/// The reason reported when the stream could not be opened.
pub open spec fn start_failure_reason(error: Seq<char>) -> Seq<char> {
    "listen_ws_connect_failed: "@ + error
}

/// What the stream yielded, or that the listener is to shut down.
pub enum StreamPoll<C> {
    /// The listener is to shut down.
    Shutdown,
    /// A response arrived.
    Response(StreamResponse<C>),
    /// Sending or receiving failed.
    Failed(String),
    /// The backend closed the stream.
    Ended,
    /// Nothing arrived within the timeout.
    TimedOut,
}

/// What the receiving task does with what the stream yielded.
pub enum StreamStep<C> {
    /// Send the finalize text to the backend and leave.
    Finalize,
    /// Hand the message to the listener and go on.
    Forward(ListenerMsg<C>),
    /// Hand the message to the listener and leave.
    Last(ListenerMsg<C>),
}

/// What became of a child the listener is linked to.
#[derive(Clone, Copy, Debug, PartialEq, Eq)]
pub enum LinkedEvent {
    Started,
    GroupChanged,
    Terminated,
    Failed,
}

/// The listener of a session.
pub struct ListenerActor;

impl ListenerActor {
    /// The name under which the listener is known.
    pub fn name() -> (n: &'static str)
        ensures
            n@ == "listener_actor"@,
    {
        "listener_actor"
    }

    /// The state a listener starts with: a transcript manager anchored at
    /// the start of the session, holding the pending words it was given. A
    /// listener that is started again within a session so keeps the
    /// session's timeline and its pending words.
    pub fn pre_start<C: Copy>(args: ListenerArgs<C>) -> (st: ListenerState<C>)
        ensures
            st.session_id == args.session_id,
            st.languages == args.languages,
            st.onboarding == args.onboarding,
            st.manager.manager_offset == args.session_start_ts_ms,
            st.manager.partial_words_by_channel@ == args.partial_words_by_channel@,
    {
        let manager = TranscriptManager::builder().with_manager_offset(
            args.session_start_ts_ms,
        ).with_existing_partial_words(args.partial_words_by_channel).build();
        ListenerState {
            session_id: args.session_id,
            languages: args.languages,
            onboarding: args.onboarding,
            manager,
        }
    }

    /// Takes in one message.
    ///
    /// A frame is offered to the stream. A well-formed response goes through
    /// the transcript manager, and what it changed is delivered; a malformed
    /// one is skipped. Every other message stops the listener, a failed
    /// start with its reason.
    pub fn handle<C: Copy>(st: &mut ListenerState<C>, message: ListenerMsg<C>) -> (action:
        ListenerAction<C>)
        ensures
            final(st).session_id == old(st).session_id,
            final(st).languages == old(st).languages,
            final(st).onboarding == old(st).onboarding,
            final(st).manager.manager_offset == old(st).manager.manager_offset,
            final(st).manager.id == old(st).manager.id,
            match message {
                ListenerMsg::Audio(mic, spk) => {
                    &&& action == ListenerAction::<C>::SendAudio(mic, spk)
                    &&& final(st).manager.partials() == old(st).manager.partials()
                },
                ListenerMsg::StreamResponse(response) => if response.is_well_formed() {
                    &&& final(st).manager.partials() == partials_after(
                        old(st).manager.manager_offset,
                        old(st).manager.partials(),
                        response,
                    )
                    &&& match action {
                        ListenerAction::Deliver { diff, persist } => {
                            &&& diff.partial_view() == final(st).manager.partials()
                            &&& diff.final_view() == finals_of(
                                old(st).manager.manager_offset,
                                response,
                            )
                            &&& words_view(persist@) == channel_words(
                                diff.final_view(),
                                response.channel(),
                            )
                        },
                        _ => false,
                    }
                } else {
                    &&& action is Skip
                    &&& final(st).manager.partials() == old(st).manager.partials()
                },
                ListenerMsg::StreamStartFailed(error) => {
                    &&& final(st).manager.partials() == old(st).manager.partials()
                    &&& match action {
                        ListenerAction::Stop(Some(reason)) => reason@ == start_failure_reason(
                            error@,
                        ),
                        _ => false,
                    }
                },
                _ => {
                    &&& action == ListenerAction::<C>::Stop(None)
                    &&& final(st).manager.partials() == old(st).manager.partials()
                },
            },
    {
        match message {
            ListenerMsg::Audio(mic, spk) => ListenerAction::SendAudio(mic, spk),
            ListenerMsg::StreamResponse(response) => {
                let channel = match &response {
                    StreamResponse::Transcript { channel_index, alternatives, .. } => {
                        if channel_index.len() == 0 || alternatives.len() == 0 {
                            return ListenerAction::Skip;
                        }
                        channel_index[0]
                    },
                    StreamResponse::Other => 0,
                };
                let diff = st.manager.append(response);
                let persist = match diff.final_words.get(&channel) {
                    Some(words) => duplicate_words(words),
                    None => Vec::new(),
                };
                assert(words_view(persist@) =~= channel_words(diff.final_view(), channel));
                ListenerAction::Deliver { diff, persist }
            },
            ListenerMsg::StreamStartFailed(error) => {
                let mut reason = String::from_str("listen_ws_connect_failed: ");
                reason.append(error.as_str());
                ListenerAction::Stop(Some(reason))
            },
            ListenerMsg::StreamError(_) => ListenerAction::Stop(None),
            ListenerMsg::StreamEnded => ListenerAction::Stop(None),
            ListenerMsg::StreamTimeout => ListenerAction::Stop(None),
        }
    }

    /// Whether the listener stops over what became of a linked child: it
    /// does when the child failed.
    pub fn handle_supervisor_evt(event: LinkedEvent) -> (stop: bool)
        ensures
            stop == (event is Failed),
    {
        match event {
            LinkedEvent::Failed => true,
            _ => false,
        }
    }
}

/// What the receiving task does with what the stream yielded: a response is
/// handed on and the task goes on; a shutdown sends the finalize text; a
/// failure, the end of the stream and a timeout are each reported, and the
/// task leaves.
pub fn stream_step<C>(poll: StreamPoll<C>) -> (step: StreamStep<C>)
    ensures
        step == match poll {
            StreamPoll::Shutdown => StreamStep::<C>::Finalize,
            StreamPoll::Response(r) => StreamStep::Forward(ListenerMsg::StreamResponse(r)),
            StreamPoll::Failed(e) => StreamStep::Last(ListenerMsg::StreamError(e)),
            StreamPoll::Ended => StreamStep::Last(ListenerMsg::StreamEnded),
            StreamPoll::TimedOut => StreamStep::Last(ListenerMsg::StreamTimeout),
        },
{
    match poll {
        StreamPoll::Shutdown => StreamStep::Finalize,
        StreamPoll::Response(r) => StreamStep::Forward(ListenerMsg::StreamResponse(r)),
        StreamPoll::Failed(e) => StreamStep::Last(ListenerMsg::StreamError(e)),
        StreamPoll::Ended => StreamStep::Last(ListenerMsg::StreamEnded),
        StreamPoll::TimedOut => StreamStep::Last(ListenerMsg::StreamTimeout),
    }
}

} // verus!
