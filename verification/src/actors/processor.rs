//! The processor: queues each incoming block on its side, drains the queues
//! into frames and decides when an amplitude report is due.

use vstd::prelude::*;
use crate::actors::joiner::{front_pair, rest, Joiner};
use crate::audio::block::{copy_block, silence, silence_of};

verus! {

/// Least time between two amplitude reports, in milliseconds.
pub const AUDIO_AMPLITUDE_THROTTLE_MS: u64 = 100;

/// One block of samples.
#[derive(Clone, Debug)]
pub struct AudioChunk<T> {
    pub data: Vec<T>,
}

/// A block arriving at the processor.
pub enum ProcMsg<T> {
    /// From the microphone.
    Mic(AudioChunk<T>),
    /// From the speaker loopback.
    Speaker(AudioChunk<T>),
    /// From a tap that already mixes both; it travels on the speaker side.
    Mixed(AudioChunk<T>),
}

/// What the processor hands on after one message.
pub struct ProcOutput<T> {
    /// The frames formed, oldest first: microphone side, then speaker side.
    pub frames: Vec<(Vec<T>, Vec<T>)>,
    /// The latest block of each side, when an amplitude report is due.
    pub amplitude: Option<(Vec<T>, Vec<T>)>,
}

/// The contents of a list of frames.
pub open spec fn frames_view<T>(frames: Seq<(Vec<T>, Vec<T>)>) -> Seq<(Seq<T>, Seq<T>)> {
    frames.map_values(|f: (Vec<T>, Vec<T>)| (f.0@, f.1@))
}

/// All the frames that two queues yield, oldest first.
pub open spec fn frames_of<T>(mic: Seq<Seq<T>>, spk: Seq<Seq<T>>, zero: T) -> Seq<
    (Seq<T>, Seq<T>),
>
    decreases mic.len() + spk.len(),
{
    match front_pair(mic, spk, zero) {
        Some(frame) => seq![frame] + frames_of(rest(mic), rest(spk), zero),
        None => Seq::empty(),
    }
}

/// Whether every block of a queue has `len` samples.
pub open spec fn blocks_of_len<T>(q: Seq<Seq<T>>, len: nat) -> bool {
    forall|i: int| 0 <= i < q.len() ==> (#[trigger] q[i]).len() == len
}

/// Where every queued block has the same length, every frame formed of them
/// has that length on both sides: no frame is unpaired.
pub proof fn law_frames_keep_block_length<T>(
    mic: Seq<Seq<T>>,
    spk: Seq<Seq<T>>,
    zero: T,
    len: nat,
)
    requires
        blocks_of_len(mic, len),
        blocks_of_len(spk, len),
    ensures
        forall|i: int|
            0 <= i < frames_of(mic, spk, zero).len() ==> (#[trigger] frames_of(
                mic,
                spk,
                zero,
            )[i]).0.len() == len && frames_of(mic, spk, zero)[i].1.len() == len,
    decreases mic.len() + spk.len(),
{
    if mic.len() > 0 || spk.len() > 0 {
        assert forall|i: int| 0 <= i < rest(mic).len() implies (#[trigger] rest(mic)[i]).len()
            == len by {
            assert(rest(mic)[i] == mic[i + 1]);
        }
        assert forall|i: int| 0 <= i < rest(spk).len() implies (#[trigger] rest(spk)[i]).len()
            == len by {
            assert(rest(spk)[i] == spk[i + 1]);
        }
        law_frames_keep_block_length(rest(mic), rest(spk), zero, len);
        if mic.len() > 0 {
            assert(mic[0].len() == len);
        }
        if spk.len() > 0 {
            assert(spk[0].len() == len);
        }
        let all = frames_of(mic, spk, zero);
        let tail = frames_of(rest(mic), rest(spk), zero);
        assert forall|i: int| 0 <= i < all.len() implies (#[trigger] all[i]).0.len() == len
            && all[i].1.len() == len by {
            if i > 0 {
                assert(all[i] == tail[i - 1]);
            }
        }
    }
}

/// The contents of a block that may be absent.
pub open spec fn block_view<T>(block: Option<Vec<T>>) -> Option<Seq<T>> {
    match block {
        Some(b) => Some(b@),
        None => None,
    }
}

/// Whether an amplitude report is due at `now_ms`, the last one having gone
/// out at `last_ms`.
pub open spec fn amplitude_due(last_ms: u64, now_ms: u64) -> bool {
    now_ms >= last_ms && now_ms - last_ms >= AUDIO_AMPLITUDE_THROTTLE_MS
}

/// The processor's state between messages.
pub struct ProcState<T> {
    joiner: Joiner<T>,
    last_mic: Option<Vec<T>>,
    last_spk: Option<Vec<T>>,
    last_amp_ms: u64,
}

impl<T> ProcState<T> {
    /// The queued microphone blocks.
    pub closed spec fn mic(self) -> Seq<Seq<T>> {
        self.joiner.mic()
    }

    /// The queued speaker blocks.
    pub closed spec fn spk(self) -> Seq<Seq<T>> {
        self.joiner.spk()
    }

    /// The latest microphone block seen.
    pub closed spec fn last_mic(self) -> Option<Seq<T>> {
        block_view(self.last_mic)
    }

    /// The latest speaker block seen.
    pub closed spec fn last_spk(self) -> Option<Seq<T>> {
        block_view(self.last_spk)
    }

    /// When the last amplitude report went out.
    pub closed spec fn last_amp_ms(self) -> u64 {
        self.last_amp_ms
    }

    /// The queues are within their capacity.
    pub closed spec fn wf(self) -> bool {
        self.joiner.wf()
    }
}

/// The processing stage of a session.
pub struct ProcessorActor {}

impl ProcessorActor {
    /// The name under which the processor is known.
    pub fn name() -> (n: &'static str)
        ensures
            n@ == "processor_actor"@,
    {
        "processor_actor"
    }

    /// The state a processor starts with at `now_ms`: nothing queued,
    /// nothing seen.
    pub fn pre_start<T: Copy>(now_ms: u64) -> (st: ProcState<T>)
        ensures
            st.wf(),
            st.mic() == Seq::<Seq<T>>::empty(),
            st.spk() == Seq::<Seq<T>>::empty(),
            st.last_mic() is None,
            st.last_spk() is None,
            st.last_amp_ms() == now_ms,
    {
        ProcState { joiner: Joiner::new(), last_mic: None, last_spk: None, last_amp_ms: now_ms }
    }

    /// Takes in one block at `now_ms`.
    ///
    /// The block is remembered as the latest of its side and queued there; a
    /// mixed block counts as the speaker side, with silence of its length on
    /// the microphone side. Then every frame the queues yield is handed on,
    /// and the amplitude report as [`process_ready`] decides.
    pub fn handle<T: Copy>(st: &mut ProcState<T>, msg: ProcMsg<T>, zero: T, now_ms: u64) -> (out:
        ProcOutput<T>)
        requires
            old(st).wf(),
        ensures
            final(st).wf(),
            final(st).mic() == Seq::<Seq<T>>::empty(),
            final(st).spk() == Seq::<Seq<T>>::empty(),
            final(st).last_mic() == seen_mic(old(st).last_mic(), msg, zero),
            final(st).last_spk() == seen_spk(old(st).last_spk(), msg),
            frames_view(out.frames@) == frames_of(
                queued_mic(old(st).mic(), msg, zero),
                queued_spk(old(st).spk(), msg),
                zero,
            ),
            reports(out.amplitude) == report_of(
                final(st).last_mic(),
                final(st).last_spk(),
                old(st).last_amp_ms(),
                now_ms,
            ),
            final(st).last_amp_ms() == if out.amplitude is Some {
                now_ms
            } else {
                old(st).last_amp_ms()
            },
    {
        match msg {
            ProcMsg::Mic(c) => {
                st.last_mic = Some(copy_block(&c.data));
                st.joiner.push_mic(c.data);
            },
            ProcMsg::Speaker(c) => {
                st.last_spk = Some(copy_block(&c.data));
                st.joiner.push_spk(c.data);
            },
            ProcMsg::Mixed(c) => {
                let empty = silence(c.data.len(), zero);
                st.last_mic = Some(copy_block(&empty));
                st.last_spk = Some(copy_block(&c.data));
                st.joiner.push_mic(empty);
                st.joiner.push_spk(c.data);
            },
        }
        process_ready(st, zero, now_ms)
    }
}

/// The microphone queue once `msg` has been queued.
pub open spec fn queued_mic<T>(mic: Seq<Seq<T>>, msg: ProcMsg<T>, zero: T) -> Seq<Seq<T>> {
    match msg {
        ProcMsg::Mic(c) => crate::actors::joiner::pushed(mic, c.data@),
        ProcMsg::Speaker(_) => mic,
        ProcMsg::Mixed(c) => crate::actors::joiner::pushed(mic, silence_of(c.data@.len(), zero)),
    }
}

/// The speaker queue once `msg` has been queued.
pub open spec fn queued_spk<T>(spk: Seq<Seq<T>>, msg: ProcMsg<T>) -> Seq<Seq<T>> {
    match msg {
        ProcMsg::Mic(_) => spk,
        ProcMsg::Speaker(c) => crate::actors::joiner::pushed(spk, c.data@),
        ProcMsg::Mixed(c) => crate::actors::joiner::pushed(spk, c.data@),
    }
}

/// The latest microphone block once `msg` has been seen.
pub open spec fn seen_mic<T>(last: Option<Seq<T>>, msg: ProcMsg<T>, zero: T) -> Option<Seq<T>> {
    match msg {
        ProcMsg::Mic(c) => Some(c.data@),
        ProcMsg::Speaker(_) => last,
        ProcMsg::Mixed(c) => Some(silence_of(c.data@.len(), zero)),
    }
}

/// The latest speaker block once `msg` has been seen.
pub open spec fn seen_spk<T>(last: Option<Seq<T>>, msg: ProcMsg<T>) -> Option<Seq<T>> {
    match msg {
        ProcMsg::Mic(_) => last,
        ProcMsg::Speaker(c) => Some(c.data@),
        ProcMsg::Mixed(c) => Some(c.data@),
    }
}

/// The contents of an amplitude report that may be absent.
pub open spec fn reports<T>(amplitude: Option<(Vec<T>, Vec<T>)>) -> Option<(Seq<T>, Seq<T>)> {
    match amplitude {
        Some((m, s)) => Some((m@, s@)),
        None => None,
    }
}

/// The amplitude report that goes out at `now_ms`, if any: the latest block
/// of each side, once both sides have been seen and the throttle has run
/// out.
pub open spec fn report_of<T>(
    last_mic: Option<Seq<T>>,
    last_spk: Option<Seq<T>>,
    last_ms: u64,
    now_ms: u64,
) -> Option<(Seq<T>, Seq<T>)> {
    match (last_mic, last_spk) {
        (Some(m), Some(s)) => if amplitude_due(last_ms, now_ms) {
            Some((m, s))
        } else {
            None
        },
        _ => None,
    }
}

/// Drains the queues into frames and decides on the amplitude report.
pub fn process_ready<T: Copy>(st: &mut ProcState<T>, zero: T, now_ms: u64) -> (out: ProcOutput<T>)
    requires
        old(st).wf(),
    ensures
        final(st).wf(),
        final(st).mic() == Seq::<Seq<T>>::empty(),
        final(st).spk() == Seq::<Seq<T>>::empty(),
        final(st).last_mic() == old(st).last_mic(),
        final(st).last_spk() == old(st).last_spk(),
        frames_view(out.frames@) == frames_of(old(st).mic(), old(st).spk(), zero),
        reports(out.amplitude) == report_of(
            old(st).last_mic(),
            old(st).last_spk(),
            old(st).last_amp_ms(),
            now_ms,
        ),
        final(st).last_amp_ms() == if out.amplitude is Some {
            now_ms
        } else {
            old(st).last_amp_ms()
        },
{
    let ghost mic0 = st.joiner.mic();
    let ghost spk0 = st.joiner.spk();
    let mut frames: Vec<(Vec<T>, Vec<T>)> = Vec::new();
    assert(frames_view(frames@) =~= Seq::<(Seq<T>, Seq<T>)>::empty());
    loop
        invariant
            st.joiner.wf(),
            st.last_mic == old(st).last_mic,
            st.last_spk == old(st).last_spk,
            st.last_amp_ms == old(st).last_amp_ms,
            mic0 == old(st).joiner.mic(),
            spk0 == old(st).joiner.spk(),
            frames_of(mic0, spk0, zero) == frames_view(frames@) + frames_of(
                st.joiner.mic(),
                st.joiner.spk(),
                zero,
            ),
        ensures
            st.joiner.mic().len() == 0,
            st.joiner.spk().len() == 0,
            frames_of(mic0, spk0, zero) == frames_view(frames@),
        decreases st.joiner.mic().len() + st.joiner.spk().len(),
    {
        let ghost mic = st.joiner.mic();
        let ghost spk = st.joiner.spk();
        let ghost done = frames_view(frames@);
        match st.joiner.pop_pair(zero) {
            Some(frame) => {
                frames.push(frame);
                proof {
                    let f = (frame.0@, frame.1@);
                    assert(frames_view(frames@) =~= done.push(f));
                    assert(frames_of(mic, spk, zero) == seq![f] + frames_of(
                        rest(mic),
                        rest(spk),
                        zero,
                    ));
                    assert(done + (seq![f] + frames_of(rest(mic), rest(spk), zero)) =~= done.push(
                        f,
                    ) + frames_of(rest(mic), rest(spk), zero));
                }
            },
            None => {
                assert(frames_of(mic, spk, zero) =~= Seq::<(Seq<T>, Seq<T>)>::empty());
                assert(done + Seq::<(Seq<T>, Seq<T>)>::empty() =~= done);
                break ;
            },
        }
    }
    assert(st.joiner.mic() =~= Seq::<Seq<T>>::empty());
    assert(st.joiner.spk() =~= Seq::<Seq<T>>::empty());
    let due = now_ms >= st.last_amp_ms && now_ms - st.last_amp_ms >= AUDIO_AMPLITUDE_THROTTLE_MS;
    let mut amplitude: Option<(Vec<T>, Vec<T>)> = None;
    if due {
        match (&st.last_mic, &st.last_spk) {
            (Some(m), Some(s)) => {
                amplitude = Some((copy_block(m), copy_block(s)));
                st.last_amp_ms = now_ms;
            },
            _ => {},
        }
    }
    ProcOutput { frames, amplitude }
}

} // verus!
