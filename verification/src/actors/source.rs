//! The capture sources: which streams to open, what each captured block
//! becomes on its way to the processor, and how mute flags and device
//! changes are handled.

use vstd::prelude::*;
use crate::actors::processor::{AudioChunk, ProcMsg};
use crate::audio::block::{
    apply_mute, is_silent, muted_view, silence_of, MIC_CHANNEL, SPEAKER_CHANNEL,
};
use crate::audio::pcm::pcm16_le;

verus! {

/// How long the loop waits for a processor to appear, in milliseconds.
pub const PROCESSOR_WAIT_MS: u64 = 100;

/// Which streams a session captures.
#[derive(Clone, Copy, Debug, PartialEq, Eq)]
pub enum CaptureMode {
    /// One system-wide tap that already mixes input and output.
    Mixed,
    /// Microphone and speaker loopback, each on its own.
    Independent,
}

/// The capture mode: the mixed tap where there is one and no headphone is in
/// use, independent streams otherwise.
pub fn capture_mode(tap_available: bool, using_headphone: bool) -> (mode: CaptureMode)
    ensures
        mode == if tap_available && !using_headphone {
            CaptureMode::Mixed
        } else {
            CaptureMode::Independent
        },
{
    if tap_available && !using_headphone {
        CaptureMode::Mixed
    } else {
        CaptureMode::Independent
    }
}

/// A change the device monitor reports.
#[derive(Clone, Copy, Debug, PartialEq, Eq)]
pub enum DeviceEvent {
    DefaultInputChanged,
    DefaultOutputChanged,
}

/// A message to the source.
#[derive(Clone, Debug, PartialEq, Eq)]
pub enum SourceMsg {
    SetMicMute(bool),
    GetMicMute,
    SetSpkMute(bool),
    GetSpkMute,
    SetMicDevice(Option<String>),
    GetMicDevice,
}

/// What the source is started with.
pub struct SourceArgs {
    pub device: Option<String>,
}

/// What the source keeps.
pub struct SourceState {
    pub mic_device: Option<String>,
    pub mic_muted: bool,
    pub spk_muted: bool,
}

/// What the host does after a message to a source.
#[derive(Clone, Debug, PartialEq, Eq)]
pub enum SourceEffect {
    /// Nothing.
    Done,
    /// Answer with a mute flag.
    ReplyMute(bool),
    /// Answer with the microphone's name.
    ReplyDevice(Option<String>),
    /// Cancel the running capture loop and start a new one.
    RestartLoop,
}

/// What the capture loop wakes up to.
pub enum LoopEvent<T> {
    /// The session's token was cancelled.
    Cancelled,
    /// The loop's own token was cancelled.
    StreamCancelled,
    /// No processor is registered yet.
    ProcessorMissing,
    /// The microphone stream yielded a block, or ended.
    Mic(Option<Vec<T>>),
    /// The speaker stream yielded a block, or ended.
    Speaker(Option<Vec<T>>),
    /// The mixed tap yielded a block, or ended.
    Mixed(Option<Vec<T>>),
}

/// What the capture loop does next.
pub enum LoopAction<T> {
    /// Drop the streams, stop the actor and leave.
    StopActor,
    /// Drop the streams and leave.
    Leave,
    /// Wait, then look for the processor again.
    Wait(u64),
    /// Send the block to the processor and go on.
    Send(ProcMsg<T>),
    /// The stream ended: leave the loop.
    Finish,
    /// The stream ended: open it again and go on.
    Reopen,
}

/// The contents of a message to the processor.
pub enum ProcMsgView<T> {
    Mic(Seq<T>),
    Speaker(Seq<T>),
    Mixed(Seq<T>),
}

impl<T> View for ProcMsg<T> {
    type V = ProcMsgView<T>;

    open spec fn view(&self) -> ProcMsgView<T> {
        match *self {
            ProcMsg::Mic(c) => ProcMsgView::Mic(c.data@),
            ProcMsg::Speaker(c) => ProcMsgView::Speaker(c.data@),
            ProcMsg::Mixed(c) => ProcMsgView::Mixed(c.data@),
        }
    }
}

/// The contents of what the capture loop does next.
pub enum LoopActionView<T> {
    StopActor,
    Leave,
    Wait(u64),
    Send(ProcMsgView<T>),
    Finish,
    Reopen,
}

impl<T> View for LoopAction<T> {
    type V = LoopActionView<T>;

    open spec fn view(&self) -> LoopActionView<T> {
        match *self {
            LoopAction::StopActor => LoopActionView::StopActor,
            LoopAction::Leave => LoopActionView::Leave,
            LoopAction::Wait(ms) => LoopActionView::Wait(ms),
            LoopAction::Send(m) => LoopActionView::Send(m@),
            LoopAction::Finish => LoopActionView::Finish,
            LoopAction::Reopen => LoopActionView::Reopen,
        }
    }
}

/// What a stream's block becomes, or what its end leads to. A mixed block
/// travels on the speaker side, so the speaker's mute flag silences it.
pub open spec fn loop_action<T>(
    mic_muted: bool,
    spk_muted: bool,
    event: LoopEvent<T>,
    zero: T,
    at_end: LoopActionView<T>,
) -> LoopActionView<T> {
    match event {
        LoopEvent::Cancelled => LoopActionView::StopActor,
        LoopEvent::StreamCancelled => LoopActionView::Leave,
        LoopEvent::ProcessorMissing => LoopActionView::Wait(PROCESSOR_WAIT_MS),
        LoopEvent::Mic(Some(data)) => LoopActionView::Send(
            ProcMsgView::Mic(muted_view(mic_muted, data@, zero)),
        ),
        LoopEvent::Speaker(Some(data)) => LoopActionView::Send(
            ProcMsgView::Speaker(muted_view(spk_muted, data@, zero)),
        ),
        LoopEvent::Mixed(Some(data)) => LoopActionView::Send(
            ProcMsgView::Mixed(muted_view(spk_muted, data@, zero)),
        ),
        LoopEvent::Mic(None) => at_end,
        LoopEvent::Speaker(None) => at_end,
        LoopEvent::Mixed(None) => at_end,
    }
}

/// One turn of a capture loop.
fn loop_step<T: Copy>(
    mic_muted: bool,
    spk_muted: bool,
    event: LoopEvent<T>,
    zero: T,
    reopen: bool,
) -> (action: LoopAction<T>)
    ensures
        action@ == loop_action(
            mic_muted,
            spk_muted,
            event,
            zero,
            if reopen {
                LoopActionView::Reopen
            } else {
                LoopActionView::Finish
            },
        ),
{
    let at_end = if reopen {
        LoopAction::Reopen
    } else {
        LoopAction::Finish
    };
    match event {
        LoopEvent::Cancelled => LoopAction::StopActor,
        LoopEvent::StreamCancelled => LoopAction::Leave,
        LoopEvent::ProcessorMissing => LoopAction::Wait(PROCESSOR_WAIT_MS),
        LoopEvent::Mic(Some(data)) => LoopAction::Send(
            ProcMsg::Mic(AudioChunk { data: apply_mute(mic_muted, data, zero) }),
        ),
        LoopEvent::Speaker(Some(data)) => LoopAction::Send(
            ProcMsg::Speaker(AudioChunk { data: apply_mute(spk_muted, data, zero) }),
        ),
        LoopEvent::Mixed(Some(data)) => LoopAction::Send(
            ProcMsg::Mixed(AudioChunk { data: apply_mute(spk_muted, data, zero) }),
        ),
        LoopEvent::Mic(None) => at_end,
        LoopEvent::Speaker(None) => at_end,
        LoopEvent::Mixed(None) => at_end,
    }
}

/// One turn of the source's capture loop, which serves every stream the
/// session has open and ends when one of them ends.
pub fn source_loop_step<T: Copy>(state: &SourceState, event: LoopEvent<T>, zero: T) -> (action:
    LoopAction<T>)
    ensures
        action@ == loop_action(
            state.mic_muted,
            state.spk_muted,
            event,
            zero,
            LoopActionView::Finish,
        ),
{
    loop_step(state.mic_muted, state.spk_muted, event, zero, false)
}

/// The source of a session.
pub struct SourceActor;

impl SourceActor {
    /// The name under which the source is known.
    pub fn name() -> (n: &'static str)
        ensures
            n@ == "source"@,
    {
        "source"
    }

    /// The state a source starts with: the microphone asked for, or the
    /// default one; nothing muted.
    pub fn pre_start(args: SourceArgs, default_mic_name: String) -> (st: SourceState)
        ensures
            st.mic_device == Some(
                match args.device {
                    Some(d) => d,
                    None => default_mic_name,
                },
            ),
            !st.mic_muted,
            !st.spk_muted,
    {
        let mic_device = match args.device {
            Some(d) => Some(d),
            None => Some(default_mic_name),
        };
        SourceState { mic_device, mic_muted: false, spk_muted: false }
    }

    /// The message a device change leads to: the capture restarts on the
    /// default microphone.
    pub fn on_device_event(event: DeviceEvent, default_mic_name: String) -> (msg: SourceMsg)
        ensures
            msg == SourceMsg::SetMicDevice(Some(default_mic_name)),
    {
        SourceMsg::SetMicDevice(Some(default_mic_name))
    }

    /// Takes in one message.
    pub fn handle(st: &mut SourceState, msg: SourceMsg) -> (effect: SourceEffect)
        ensures
            *final(st) == source_after(*old(st), msg),
            effect == source_effect(*old(st), msg),
    {
        match msg {
            SourceMsg::SetMicMute(muted) => {
                st.mic_muted = muted;
                SourceEffect::Done
            },
            SourceMsg::GetMicMute => SourceEffect::ReplyMute(st.mic_muted),
            SourceMsg::SetSpkMute(muted) => {
                st.spk_muted = muted;
                SourceEffect::Done
            },
            SourceMsg::GetSpkMute => SourceEffect::ReplyMute(st.spk_muted),
            SourceMsg::GetMicDevice => SourceEffect::ReplyDevice(st.mic_device.clone()),
            SourceMsg::SetMicDevice(dev) => {
                st.mic_device = dev;
                SourceEffect::RestartLoop
            },
        }
    }
}

/// The source's state after a message.
pub open spec fn source_after(st: SourceState, msg: SourceMsg) -> SourceState {
    match msg {
        SourceMsg::SetMicMute(muted) => SourceState { mic_muted: muted, ..st },
        SourceMsg::SetSpkMute(muted) => SourceState { spk_muted: muted, ..st },
        SourceMsg::SetMicDevice(dev) => SourceState { mic_device: dev, ..st },
        _ => st,
    }
}

/// What the host does after a message to the source.
pub open spec fn source_effect(st: SourceState, msg: SourceMsg) -> SourceEffect {
    match msg {
        SourceMsg::SetMicMute(_) => SourceEffect::Done,
        SourceMsg::GetMicMute => SourceEffect::ReplyMute(st.mic_muted),
        SourceMsg::SetSpkMute(_) => SourceEffect::Done,
        SourceMsg::GetSpkMute => SourceEffect::ReplyMute(st.spk_muted),
        SourceMsg::GetMicDevice => SourceEffect::ReplyDevice(st.mic_device),
        SourceMsg::SetMicDevice(_) => SourceEffect::RestartLoop,
    }
}

/// A message to a microphone source.
#[derive(Clone, Debug, PartialEq, Eq)]
pub enum MicCtrl {
    SetMute(bool),
    GetMute,
    SetDevice(Option<String>),
    GetDevice,
}

/// What a microphone source is started with.
pub struct MicArgs {
    pub device: Option<String>,
}

/// What a microphone source keeps.
pub struct MicState {
    pub device: Option<String>,
    pub muted: bool,
}

/// A source that captures the microphone alone.
pub struct MicSourceActor;

impl MicSourceActor {
    /// The name under which the microphone source is known.
    pub fn name() -> (n: &'static str)
        ensures
            n@ == "source_mic"@,
    {
        "source_mic"
    }

    /// The state a microphone source starts with: the default microphone,
    /// not muted.
    pub fn pre_start(args: MicArgs, default_mic_name: String) -> (st: MicState)
        ensures
            st.device == Some(default_mic_name),
            !st.muted,
    {
        MicState { device: Some(default_mic_name), muted: false }
    }

    /// The message a device change leads to: a new default input restarts
    /// the capture on it; a new default output is of no concern.
    pub fn on_device_event(event: DeviceEvent, default_mic_name: String) -> (msg: Option<MicCtrl>)
        ensures
            msg == match event {
                DeviceEvent::DefaultInputChanged => Some(MicCtrl::SetDevice(Some(default_mic_name))),
                DeviceEvent::DefaultOutputChanged => None::<MicCtrl>,
            },
    {
        match event {
            DeviceEvent::DefaultInputChanged => Some(MicCtrl::SetDevice(Some(default_mic_name))),
            DeviceEvent::DefaultOutputChanged => None,
        }
    }

    /// Takes in one message.
    pub fn handle(st: &mut MicState, msg: MicCtrl) -> (effect: SourceEffect)
        ensures
            *final(st) == match msg {
                MicCtrl::SetMute(muted) => MicState { muted, ..*old(st) },
                MicCtrl::SetDevice(dev) => MicState { device: dev, ..*old(st) },
                _ => *old(st),
            },
            effect == match msg {
                MicCtrl::SetMute(_) => SourceEffect::Done,
                MicCtrl::GetMute => SourceEffect::ReplyMute(old(st).muted),
                MicCtrl::GetDevice => SourceEffect::ReplyDevice(old(st).device),
                MicCtrl::SetDevice(_) => SourceEffect::RestartLoop,
            },
    {
        match msg {
            MicCtrl::SetMute(muted) => {
                st.muted = muted;
                SourceEffect::Done
            },
            MicCtrl::GetMute => SourceEffect::ReplyMute(st.muted),
            MicCtrl::GetDevice => SourceEffect::ReplyDevice(st.device.clone()),
            MicCtrl::SetDevice(dev) => {
                st.device = dev;
                SourceEffect::RestartLoop
            },
        }
    }
}

/// One turn of the microphone source's capture loop, which ends when the
/// stream ends.
pub fn mic_loop_step<T: Copy>(state: &MicState, event: LoopEvent<T>, zero: T) -> (action:
    LoopAction<T>)
    ensures
        action@ == loop_action(state.muted, state.muted, event, zero, LoopActionView::Finish),
{
    loop_step(state.muted, state.muted, event, zero, false)
}

/// A message to a speaker source.
#[derive(Clone, Copy, Debug, PartialEq, Eq)]
pub enum SpkCtrl {
    SetMute(bool),
    GetMute,
}

/// What a speaker source is started with.
pub struct SpkArgs {}

/// What a speaker source keeps.
pub struct SpkState {
    pub muted: bool,
}

/// A source that captures the speaker loopback alone.
pub struct SpeakerSourceActor;

impl SpeakerSourceActor {
    /// The name under which the speaker source is known.
    pub fn name() -> (n: &'static str)
        ensures
            n@ == "source_spk"@,
    {
        "source_spk"
    }

    /// The state a speaker source starts with: not muted.
    pub fn pre_start(args: SpkArgs) -> (st: SpkState)
        ensures
            !st.muted,
    {
        SpkState { muted: false }
    }

    /// Takes in one message.
    pub fn handle(st: &mut SpkState, msg: SpkCtrl) -> (effect: SourceEffect)
        ensures
            final(st).muted == match msg {
                SpkCtrl::SetMute(muted) => muted,
                SpkCtrl::GetMute => old(st).muted,
            },
            effect == match msg {
                SpkCtrl::SetMute(_) => SourceEffect::Done,
                SpkCtrl::GetMute => SourceEffect::ReplyMute(old(st).muted),
            },
    {
        match msg {
            SpkCtrl::SetMute(muted) => {
                st.muted = muted;
                SourceEffect::Done
            },
            SpkCtrl::GetMute => SourceEffect::ReplyMute(st.muted),
        }
    }
}

/// One turn of the speaker source's capture loop, which opens the stream
/// again when it ends.
pub fn speaker_loop_step<T: Copy>(state: &SpkState, event: LoopEvent<T>, zero: T) -> (action:
    LoopAction<T>)
    ensures
        action@ == loop_action(state.muted, state.muted, event, zero, LoopActionView::Reopen),
{
    loop_step(state.muted, state.muted, event, zero, true)
}

/// The samples that reach the processor for `channel` when the capture loop
/// sends `msg`: a mixed block travels on the speaker side, with silence
/// beside it.
pub open spec fn channel_samples<T>(msg: ProcMsgView<T>, channel: usize, zero: T) -> Option<
    Seq<T>,
> {
    match msg {
        ProcMsgView::Mic(d) => if channel == MIC_CHANNEL {
            Some(d)
        } else {
            None
        },
        ProcMsgView::Speaker(d) => if channel == SPEAKER_CHANNEL {
            Some(d)
        } else {
            None
        },
        ProcMsgView::Mixed(d) => if channel == MIC_CHANNEL {
            Some(silence_of(d.len(), zero))
        } else {
            Some(d)
        },
    }
}

/// While a channel is muted, every block that reaches the processor for it
/// is silent, and as long as the block captured.
pub proof fn law_muted_channel_is_silent<T>(
    mic_muted: bool,
    spk_muted: bool,
    event: LoopEvent<T>,
    zero: T,
    at_end: LoopActionView<T>,
    channel: usize,
)
    requires
        channel == MIC_CHANNEL || channel == SPEAKER_CHANNEL,
        channel == MIC_CHANNEL ==> mic_muted,
        channel == SPEAKER_CHANNEL ==> spk_muted,
        !(at_end is Send),
    ensures
        match loop_action(mic_muted, spk_muted, event, zero, at_end) {
            LoopActionView::Send(msg) => match channel_samples(msg, channel, zero) {
                Some(samples) => is_silent(samples, zero),
                None => true,
            },
            _ => true,
        },
{
}

/// A block captured on a muted channel travels to the speech backend as zero
/// bytes, two for each sample captured.
pub proof fn law_muted_bytes_are_zero(data: Seq<i16>)
    ensures
        pcm16_le(muted_view(true, data, 0i16)).len() == 2 * data.len(),
        forall|i: int|
            0 <= i < 2 * data.len() ==> #[trigger] pcm16_le(muted_view(true, data, 0i16))[i]
                == 0u8,
{
}

/// Muting a channel of the source mutes it for every block that follows,
/// until a message unmutes it.
pub proof fn law_mute_lasts(st: SourceState, msg: SourceMsg)
    ensures
        st.mic_muted && !(msg is SetMicMute) ==> source_after(st, msg).mic_muted,
        st.spk_muted && !(msg is SetSpkMute) ==> source_after(st, msg).spk_muted,
        msg == SourceMsg::SetMicMute(true) ==> source_after(st, msg).mic_muted,
        msg == SourceMsg::SetSpkMute(true) ==> source_after(st, msg).spk_muted,
{
}

} // verus!
