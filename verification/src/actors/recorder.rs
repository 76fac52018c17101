//! The recorder: which files a session's audio goes to and what is done to
//! them when the recorder starts and stops.

use vstd::prelude::*;

verus! {

/// Samples handed to the encoder at a time.
pub const ENCODE_BLOCK_SIZE: usize = 4096;

/// Target quality of the archive, in thousandths.
pub const ARCHIVE_QUALITY_PERMILLE: u32 = 700;

/// The layout of a waveform file.
#[derive(Clone, Copy, Debug, PartialEq, Eq)]
pub struct WavFormat {
    pub channels: u16,
    pub sample_rate: u32,
    pub bits_per_sample: u16,
    pub float: bool,
}

/// A message to the recorder.
pub enum RecMsg<T> {
    /// Mixed samples to append.
    Audio(Vec<T>),
}

/// What the recorder is started with.
pub struct RecArgs {
    pub app_dir: String,
    pub session_id: String,
}

/// What the recorder keeps.
pub struct RecState {
    pub writer_open: bool,
}

/// One step for the host to carry out on the session's files.
#[derive(Clone, Copy, Debug, PartialEq, Eq)]
pub enum RecStep {
    /// Make sure the session's directory exists.
    CreateDir,
    /// Decode the archive back into the waveform file.
    DecodeArchive,
    /// Delete the archive.
    RemoveArchive,
    /// Open the waveform file to append to it.
    AppendWav,
    /// Create the waveform file.
    CreateWav(WavFormat),
    /// Finalize the waveform file.
    FinalizeWav,
    /// Encode the waveform file into the archive.
    EncodeArchive,
    /// Delete the waveform file.
    RemoveWav,
}

/// What follows a step.
#[derive(Clone, Copy, Debug, PartialEq, Eq)]
pub enum Next {
    /// The next step of the plan.
    GoOn,
    /// Nothing: the steps that are left are dropped, and the recorder's
    /// start or stop succeeds.
    Finish,
    /// Nothing: the recorder's start fails.
    Fail,
}

/// Whether a step belongs to the closing of the recording.
pub open spec fn is_closing(step: RecStep) -> bool {
    step is FinalizeWav || step is EncodeArchive || step is RemoveWav
}

/// What follows `step`, given whether it went well. A failure while the
/// recording is opened fails the recorder. While it is closed, a failure
/// is reported and never fails the stop: after a failed finalize the
/// archive is still made; after a failed encode the waveform file is kept.
pub open spec fn next_after(step: RecStep, succeeded: bool) -> Next {
    if succeeded {
        Next::GoOn
    } else {
        match step {
            RecStep::FinalizeWav => Next::GoOn,
            RecStep::EncodeArchive => Next::Finish,
            RecStep::RemoveWav => Next::Finish,
            _ => Next::Fail,
        }
    }
}

/// The steps of `plan` that are tried, in order, where `went_well` tells of
/// each step whether it succeeds.
pub open spec fn tried(plan: Seq<RecStep>, went_well: spec_fn(RecStep) -> bool) -> Seq<RecStep>
    decreases plan.len(),
{
    if plan.len() == 0 {
        Seq::empty()
    } else {
        match next_after(plan[0], went_well(plan[0])) {
            Next::GoOn => seq![plan[0]] + tried(plan.drop_first(), went_well),
            _ => seq![plan[0]],
        }
    }
}

/// Whether carrying out `plan` ends in failure.
pub open spec fn fails(plan: Seq<RecStep>, went_well: spec_fn(RecStep) -> bool) -> bool
    decreases plan.len(),
{
    if plan.len() == 0 {
        false
    } else {
        match next_after(plan[0], went_well(plan[0])) {
            Next::GoOn => fails(plan.drop_first(), went_well),
            Next::Finish => false,
            Next::Fail => true,
        }
    }
}

/// Closing the recording never fails, whatever fails on the way; the
/// archive is tried even after a failed finalize; and the waveform file is
/// deleted only after an encode that went well.
pub proof fn law_stop_never_fails(
    writer_open: bool,
    wav_exists: bool,
    went_well: spec_fn(RecStep) -> bool,
)
    ensures
        !fails(stop_plan(writer_open, wav_exists), went_well),
        wav_exists ==> tried(stop_plan(writer_open, wav_exists), went_well).contains(
            RecStep::EncodeArchive,
        ),
        tried(stop_plan(writer_open, wav_exists), went_well).contains(RecStep::RemoveWav)
            <==> wav_exists && went_well(RecStep::EncodeArchive),
{
    reveal_with_fuel(tried, 4);
    reveal_with_fuel(fails, 4);
    let empty = Seq::<RecStep>::empty();
    let remove = seq![RecStep::RemoveWav];
    let archive = seq![RecStep::EncodeArchive, RecStep::RemoveWav];
    let whole = seq![RecStep::FinalizeWav, RecStep::EncodeArchive, RecStep::RemoveWav];
    assert(remove.drop_first() =~= empty);
    assert(archive.drop_first() =~= remove);
    assert(whole.drop_first() =~= archive);
    assert(seq![RecStep::FinalizeWav].drop_first() =~= empty);
    assert(tried(remove, went_well) =~= remove);
    assert(tried(archive, went_well) =~= if went_well(RecStep::EncodeArchive) {
        archive
    } else {
        seq![RecStep::EncodeArchive]
    });
    assert(tried(whole, went_well) =~= if went_well(RecStep::EncodeArchive) {
        whole
    } else {
        seq![RecStep::FinalizeWav, RecStep::EncodeArchive]
    });
    assert(tried(seq![RecStep::FinalizeWav], went_well) =~= seq![RecStep::FinalizeWav]);
    let plan = stop_plan(writer_open, wav_exists);
    assert(plan =~= if writer_open {
        if wav_exists {
            whole
        } else {
            seq![RecStep::FinalizeWav]
        }
    } else {
        if wav_exists {
            archive
        } else {
            empty
        }
    });
    let t = tried(plan, went_well);
    if wav_exists {
        if writer_open {
            assert(t[1] == RecStep::EncodeArchive);
            if went_well(RecStep::EncodeArchive) {
                assert(t[2] == RecStep::RemoveWav);
            }
        } else {
            assert(t[0] == RecStep::EncodeArchive);
            if went_well(RecStep::EncodeArchive) {
                assert(t[1] == RecStep::RemoveWav);
            }
        }
    }
}

/// The steps that open the recording: an archive left by an earlier run is
/// decoded back first, and an existing waveform file is appended to.
pub open spec fn start_plan(archive_exists: bool, wav_exists: bool) -> Seq<RecStep> {
    if archive_exists {
        seq![RecStep::CreateDir, RecStep::DecodeArchive, RecStep::RemoveArchive, RecStep::AppendWav]
    } else if wav_exists {
        seq![RecStep::CreateDir, RecStep::AppendWav]
    } else {
        seq![RecStep::CreateDir, RecStep::CreateWav(recording_format_spec())]
    }
}

/// The layout of a live recording: one channel, 16 kHz, 32-bit float.
pub open spec fn recording_format_spec() -> WavFormat {
    WavFormat { channels: 1, sample_rate: 16000, bits_per_sample: 32, float: true }
}

/// The steps that close the recording, given whether a writer is open and
/// whether a waveform file exists.
pub open spec fn stop_plan(writer_open: bool, wav_exists: bool) -> Seq<RecStep> {
    (if writer_open {
        seq![RecStep::FinalizeWav]
    } else {
        Seq::empty()
    }) + if wav_exists {
        seq![RecStep::EncodeArchive, RecStep::RemoveWav]
    } else {
        Seq::empty()
    }
}

/// The ranges `[from, to)` in which `len` samples go to the encoder: full
/// blocks, then what is left.
pub open spec fn block_ranges(len: nat, size: nat) -> Seq<(usize, usize)>
    recommends
        size > 0,
{
    Seq::new(
        (len + size - 1) as nat / size,
        |i: int| ((i * size) as usize, if (i + 1) * size <= len {
            ((i + 1) * size) as usize
        } else {
            len as usize
        }),
    )
}

/// The recorder of a session.
pub struct Recorder;

impl Recorder {
    /// The name under which the recorder is known.
    pub fn name() -> (n: &'static str)
        ensures
            n@ == "recorder"@,
    {
        "recorder"
    }

    /// Name of the live waveform file within the session's directory.
    pub fn wav_file_name() -> (n: &'static str)
        ensures
            n@ == "audio.wav"@,
    {
        "audio.wav"
    }

    /// Name of the archive within the session's directory.
    pub fn ogg_file_name() -> (n: &'static str)
        ensures
            n@ == "audio.ogg"@,
    {
        "audio.ogg"
    }

    /// The layout of a live recording.
    pub fn recording_format() -> (format: WavFormat)
        ensures
            format == recording_format_spec(),
    {
        WavFormat { channels: 1, sample_rate: 16000, bits_per_sample: 32, float: true }
    }

    /// The layout of the waveform file an archive is decoded into: the
    /// archive's channels and rate, 32-bit float.
    pub fn decoded_format(channels: u8, sample_rate: u32) -> (format: WavFormat)
        ensures
            format == (WavFormat {
                channels: channels as u16,
                sample_rate,
                bits_per_sample: 32,
                float: true,
            }),
    {
        WavFormat { channels: channels as u16, sample_rate, bits_per_sample: 32, float: true }
    }

    /// The steps that open the recording, and the state to keep.
    pub fn pre_start(archive_exists: bool, wav_exists: bool) -> (out: (RecState, Vec<RecStep>))
        ensures
            out.0.writer_open,
            out.1@ == start_plan(archive_exists, wav_exists),
    {
        let mut plan: Vec<RecStep> = Vec::new();
        plan.push(RecStep::CreateDir);
        if archive_exists {
            plan.push(RecStep::DecodeArchive);
            plan.push(RecStep::RemoveArchive);
            plan.push(RecStep::AppendWav);
        } else if wav_exists {
            plan.push(RecStep::AppendWav);
        } else {
            plan.push(RecStep::CreateWav(Self::recording_format()));
        }
        assert(plan@ =~= start_plan(archive_exists, wav_exists));
        (RecState { writer_open: true }, plan)
    }

    /// Whether the samples of a message are written: they are while a writer
    /// is open.
    pub fn handle<T>(st: &RecState, msg: &RecMsg<T>) -> (write: bool)
        ensures
            write == st.writer_open,
    {
        st.writer_open
    }

    /// Closes the writer, if one is open.
    pub fn post_stop(st: &mut RecState) -> (finalize: bool)
        ensures
            finalize == old(st).writer_open,
            !final(st).writer_open,
    {
        let finalize = st.writer_open;
        st.writer_open = false;
        finalize
    }

    /// The steps that close the recording.
    pub fn stop_steps(writer_open: bool, wav_exists: bool) -> (plan: Vec<RecStep>)
        ensures
            plan@ == stop_plan(writer_open, wav_exists),
    {
        let mut plan: Vec<RecStep> = Vec::new();
        if writer_open {
            plan.push(RecStep::FinalizeWav);
        }
        if wav_exists {
            plan.push(RecStep::EncodeArchive);
            plan.push(RecStep::RemoveWav);
        }
        assert(plan@ =~= stop_plan(writer_open, wav_exists));
        plan
    }

    /// What follows `step`, given whether it went well.
    pub fn after_step(step: RecStep, succeeded: bool) -> (next: Next)
        ensures
            next == next_after(step, succeeded),
    {
        if succeeded {
            Next::GoOn
        } else {
            match step {
                RecStep::FinalizeWav => Next::GoOn,
                RecStep::EncodeArchive => Next::Finish,
                RecStep::RemoveWav => Next::Finish,
                _ => Next::Fail,
            }
        }
    }

    /// The ranges in which `len` samples go to the encoder, in order.
    pub fn encode_blocks(len: usize) -> (ranges: Vec<(usize, usize)>)
        ensures
            ranges@ == block_ranges(len as nat, ENCODE_BLOCK_SIZE as nat),
    {
        let mut ranges: Vec<(usize, usize)> = Vec::new();
        let mut from: usize = 0;
        let ghost want = block_ranges(len as nat, ENCODE_BLOCK_SIZE as nat);
        while from < len
            invariant
                from <= len || from == ranges@.len() * ENCODE_BLOCK_SIZE,
                from == ranges@.len() * ENCODE_BLOCK_SIZE || from == len,
                from == len ==> ranges@.len() == want.len(),
                ranges@.len() <= want.len(),
                want == block_ranges(len as nat, ENCODE_BLOCK_SIZE as nat),
                forall|i: int| 0 <= i < ranges@.len() ==> ranges@[i] == want[i],
            decreases len - from,
        {
            let ghost k = ranges@.len() as int;
            assert(from == k * 4096);
            assert(k < want.len()) by {
                assert(k * 4096 < len);
            }
            let to: usize = if len - from >= ENCODE_BLOCK_SIZE {
                from + ENCODE_BLOCK_SIZE
            } else {
                len
            };
            assert((k + 1) * 4096 == k * 4096 + 4096);
            ranges.push((from, to));
            assert(ranges@[k] == want[k]);
            from = to;
            if to == len {
                assert(ranges@.len() == want.len()) by {
                    assert(len <= (k + 1) * 4096);
                    assert(want.len() == (len + 4095) / 4096);
                }
            }
        }
        if len == 0 {
            assert(want.len() == 0);
        }
        assert(ranges@ =~= want);
        ranges
    }

    /// The channel count to hand the encoder; none where it does not fit.
    pub fn encoder_channels(channels: u16) -> (out: Option<u8>)
        ensures
            out == if 0 < channels % 256 {
                Some((channels % 256) as u8)
            } else {
                None::<u8>
            },
    {
        let low = (channels % 256) as u8;
        if low > 0 {
            Some(low)
        } else {
            None
        }
    }
}

} // verus!
