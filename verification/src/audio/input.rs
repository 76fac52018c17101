//! Descriptions of the audio inputs a session can open and of the streams
//! they yield.

use vstd::prelude::*;
use crate::transcript::text::str_eq;
use crate::audio::block::copy_block;
use crate::audio::pcm::{next_sample, sample_of};

verus! {

/// Rate of recorded input, in hertz.
pub const RECORDED_SAMPLE_RATE: u32 = 16000;

/// Terminal type of a headphone output stream.
pub const TERMINAL_HEADPHONES: u32 = 0x6864_7068;

/// Terminal type of a headphone output port.
pub const OUTPUT_TERM_HEADPHONES: u32 = 0x0302;

/// The platforms that differ in what they can capture.
#[derive(Clone, Copy, Debug, PartialEq, Eq)]
pub enum Platform {
    MacOs,
    Windows,
    Linux,
    Other,
}

impl Platform {
    /// Whether the speaker's output can be captured here.
    pub open spec fn captures_speaker(self) -> bool {
        self is MacOs || self is Windows
    }
}

/// What was asked of the speaker loopback.
#[derive(Clone, Copy, Debug, PartialEq, Eq)]
pub enum SpeakerCall {
    New,
    Stream,
}

/// Why an input cannot be had.
#[derive(Clone, Debug, PartialEq, Eq)]
pub enum AudioError {
    /// The platform does not offer what was asked of the speaker loopback.
    Unsupported(SpeakerCall),
    /// No such device could be opened.
    NoDevice,
}

impl AudioError {
    /// The error in words.
    pub open spec fn text(self) -> Seq<char> {
        match self {
            AudioError::Unsupported(SpeakerCall::New) =>
                "'SpeakerInput::new' is not supported on this platform"@,
            AudioError::Unsupported(SpeakerCall::Stream) =>
                "'SpeakerInput::stream' is not supported on this platform"@,
            AudioError::NoDevice => "no audio input device could be opened"@,
        }
    }

    /// The error in words.
    pub fn message(&self) -> (out: String)
        ensures
            out@ == self.text(),
    {
        match self {
            AudioError::Unsupported(SpeakerCall::New) =>
                "'SpeakerInput::new' is not supported on this platform".to_owned(),
            AudioError::Unsupported(SpeakerCall::Stream) =>
                "'SpeakerInput::stream' is not supported on this platform".to_owned(),
            AudioError::NoDevice => "no audio input device could be opened".to_owned(),
        }
    }
}

/// Where an input's samples come from.
#[derive(Clone, Copy, Debug, PartialEq, Eq)]
pub enum AudioSource {
    RealtimeMic,
    RealtimeSpeaker,
    Recorded,
}

/// An opened microphone.
#[derive(Clone, Debug)]
pub struct MicInput {
    pub device_name: String,
    pub sample_rate: u32,
}

/// A microphone's stream.
#[derive(Clone, Copy, Debug, PartialEq, Eq)]
pub struct MicStream {
    pub sample_rate: u32,
}

/// The speaker loopback, where the platform offers it.
#[derive(Clone, Copy, Debug)]
pub struct SpeakerInput {
    platform: Platform,
    sample_rate: u32,
}

/// The speaker loopback's stream.
#[derive(Clone, Copy, Debug, PartialEq, Eq)]
pub struct SpeakerStream {
    pub sample_rate: u32,
}

impl SpeakerInput {
    /// The platform the loopback was opened on.
    pub closed spec fn platform(self) -> Platform {
        self.platform
    }

    /// The rate at which the loopback delivers.
    pub closed spec fn rate(self) -> u32 {
        self.sample_rate
    }

    /// Opens the speaker loopback, which delivers at `sample_rate`. Only
    /// macOS and Windows offer it.
    pub fn new(platform: Platform, sample_rate: u32) -> (out: Result<SpeakerInput, AudioError>)
        ensures
            match out {
                Ok(input) => platform.captures_speaker() && input.platform() == platform
                    && input.rate() == sample_rate,
                Err(e) => !platform.captures_speaker() && e == AudioError::Unsupported(
                    SpeakerCall::New,
                ),
            },
    {
        match platform {
            Platform::MacOs => Ok(SpeakerInput { platform, sample_rate }),
            Platform::Windows => Ok(SpeakerInput { platform, sample_rate }),
            _ => Err(AudioError::Unsupported(SpeakerCall::New)),
        }
    }

    /// The loopback's stream.
    pub fn stream(self) -> (out: Result<SpeakerStream, AudioError>)
        ensures
            match out {
                Ok(s) => self.platform().captures_speaker() && s.sample_rate == self.rate(),
                Err(e) => !self.platform().captures_speaker() && e == AudioError::Unsupported(
                    SpeakerCall::Stream,
                ),
            },
    {
        match self.platform {
            Platform::MacOs => Ok(SpeakerStream { sample_rate: self.sample_rate }),
            Platform::Windows => Ok(SpeakerStream { sample_rate: self.sample_rate }),
            _ => Err(AudioError::Unsupported(SpeakerCall::Stream)),
        }
    }
}

/// One input of a session.
pub struct AudioInput {
    source: AudioSource,
    mic: Option<MicInput>,
    speaker: Option<SpeakerInput>,
    data: Option<Vec<u8>>,
}

/// The samples an input yields.
#[derive(Clone, Debug)]
pub enum AudioStream {
    RealtimeMic { mic: MicStream },
    RealtimeSpeaker { speaker: SpeakerStream },
    Recorded { data: Vec<u8>, position: usize },
}

impl AudioInput {
    /// Where the samples come from.
    pub closed spec fn source(self) -> AudioSource {
        self.source
    }

    /// The opened microphone, if this is one.
    pub closed spec fn mic(self) -> Option<MicInput> {
        self.mic
    }

    /// The speaker loopback, while its stream has not been taken.
    pub closed spec fn speaker(self) -> Option<SpeakerInput> {
        self.speaker
    }

    /// The recorded bytes, if this is a recording.
    pub closed spec fn data(self) -> Option<Seq<u8>> {
        match self.data {
            Some(d) => Some(d@),
            None => None,
        }
    }

    /// The input holds what its source needs: a microphone has its device,
    /// a recording its bytes, and a loopback is on a platform that offers
    /// one.
    pub open spec fn wf(self) -> bool {
        &&& self.source() is RealtimeMic ==> self.mic() is Some
        &&& self.source() is Recorded ==> self.data() is Some
        &&& self.speaker() is Some ==> self.speaker()->0.platform().captures_speaker()
    }

    /// The input for a microphone, from the attempt to open it.
    pub fn from_mic(mic: Result<MicInput, AudioError>) -> (out: Result<AudioInput, AudioError>)
        ensures
            match (mic, out) {
                (Ok(m), Ok(input)) => {
                    &&& input.wf()
                    &&& input.source() == AudioSource::RealtimeMic
                    &&& input.mic() == Some(m)
                    &&& input.speaker() is None
                    &&& input.data() is None
                },
                (Err(e), Err(f)) => e == f,
                _ => false,
            },
    {
        match mic {
            Ok(m) => Ok(
                AudioInput {
                    source: AudioSource::RealtimeMic,
                    mic: Some(m),
                    speaker: None,
                    data: None,
                },
            ),
            Err(e) => Err(e),
        }
    }

    /// The input for the speaker loopback, on a platform that offers one.
    pub fn from_speaker(platform: Platform, sample_rate: u32) -> (out: AudioInput)
        requires
            platform.captures_speaker(),
        ensures
            out.wf(),
            out.source() == AudioSource::RealtimeSpeaker,
            out.mic() is None,
            out.data() is None,
            out.speaker() is Some,
            out.speaker()->0.platform() == platform,
            out.speaker()->0.rate() == sample_rate,
    {
        let speaker = match SpeakerInput::new(platform, sample_rate) {
            Ok(s) => Some(s),
            Err(_) => None,
        };
        AudioInput { source: AudioSource::RealtimeSpeaker, mic: None, speaker, data: None }
    }

    /// The input for the speaker loopback where the platform offers one,
    /// the reason where it does not.
    pub fn try_from_speaker(platform: Platform, sample_rate: u32) -> (out: Result<
        AudioInput,
        AudioError,
    >)
        ensures
            match out {
                Ok(input) => {
                    &&& platform.captures_speaker()
                    &&& input.wf()
                    &&& input.source() == AudioSource::RealtimeSpeaker
                    &&& input.speaker() is Some
                    &&& input.speaker()->0.rate() == sample_rate
                },
                Err(e) => !platform.captures_speaker() && e == AudioError::Unsupported(
                    SpeakerCall::New,
                ),
            },
    {
        match platform {
            Platform::MacOs => Ok(Self::from_speaker(platform, sample_rate)),
            Platform::Windows => Ok(Self::from_speaker(platform, sample_rate)),
            _ => Err(AudioError::Unsupported(SpeakerCall::New)),
        }
    }

    /// The input for recorded bytes of 16-bit little-endian PCM.
    pub fn from_recording(data: Vec<u8>) -> (out: AudioInput)
        ensures
            out.wf(),
            out.source() == AudioSource::Recorded,
            out.mic() is None,
            out.speaker() is None,
            out.data() == Some(data@),
    {
        AudioInput { source: AudioSource::Recorded, mic: None, speaker: None, data: Some(data) }
    }

    /// The name to show for the input.
    pub fn device_name(&self) -> (name: String)
        requires
            self.wf(),
        ensures
            name@ == match self.source() {
                AudioSource::RealtimeMic => self.mic()->0.device_name@,
                AudioSource::RealtimeSpeaker => "RealtimeSpeaker"@,
                AudioSource::Recorded => "Recorded"@,
            },
    {
        match self.source {
            AudioSource::RealtimeMic => match &self.mic {
                Some(m) => m.device_name.clone(),
                None => String::new(),
            },
            AudioSource::RealtimeSpeaker => "RealtimeSpeaker".to_owned(),
            AudioSource::Recorded => "Recorded".to_owned(),
        }
    }

    /// The input's stream. The loopback gives its stream once: taking it
    /// leaves the input without one.
    pub fn stream(&mut self) -> (out: AudioStream)
        requires
            old(self).wf(),
            old(self).source() is RealtimeSpeaker ==> old(self).speaker() is Some,
        ensures
            final(self).wf(),
            final(self).source() == old(self).source(),
            final(self).mic() == old(self).mic(),
            final(self).data() == old(self).data(),
            final(self).speaker() == if old(self).source() is RealtimeSpeaker {
                None
            } else {
                old(self).speaker()
            },
            match old(self).source() {
                AudioSource::RealtimeMic => out == (AudioStream::RealtimeMic {
                    mic: MicStream { sample_rate: old(self).mic()->0.sample_rate },
                }),
                AudioSource::RealtimeSpeaker => out == (AudioStream::RealtimeSpeaker {
                    speaker: SpeakerStream { sample_rate: old(self).speaker()->0.rate() },
                }),
                AudioSource::Recorded => match out {
                    AudioStream::Recorded { data, position } => Some(data@) == old(self).data()
                        && position == 0,
                    _ => false,
                },
            },
    {
        match self.source {
            AudioSource::RealtimeMic => {
                let sample_rate = match &self.mic {
                    Some(m) => m.sample_rate,
                    None => 0,
                };
                AudioStream::RealtimeMic { mic: MicStream { sample_rate } }
            },
            AudioSource::RealtimeSpeaker => {
                let sample_rate = match self.speaker {
                    Some(s) => s.sample_rate,
                    None => 0,
                };
                self.speaker = None;
                AudioStream::RealtimeSpeaker { speaker: SpeakerStream { sample_rate } }
            },
            AudioSource::Recorded => {
                let data = match &self.data {
                    Some(d) => copy_block(d),
                    None => Vec::new(),
                };
                AudioStream::Recorded { data, position: 0 }
            },
        }
    }
}

impl AudioStream {
    /// The rate at which the stream delivers.
    pub fn sample_rate(&self) -> (rate: u32)
        ensures
            rate == match *self {
                AudioStream::RealtimeMic { mic } => mic.sample_rate,
                AudioStream::RealtimeSpeaker { speaker } => speaker.sample_rate,
                AudioStream::Recorded { .. } => RECORDED_SAMPLE_RATE,
            },
    {
        match self {
            AudioStream::RealtimeMic { mic } => mic.sample_rate,
            AudioStream::RealtimeSpeaker { speaker } => speaker.sample_rate,
            AudioStream::Recorded { .. } => RECORDED_SAMPLE_RATE,
        }
    }

    /// The next sample of a recording, as a 16-bit value, and the stream
    /// moved past it; nothing once fewer than two bytes are left, and
    /// nothing of a live stream.
    pub fn poll_recorded(self) -> (out: (Option<i16>, AudioStream))
        ensures
            match self {
                AudioStream::Recorded { data, position } => if position + 2 <= data.len() {
                    &&& out.0 == Some(sample_of(data[position as int], data[position + 1]))
                    &&& out.1 == (AudioStream::Recorded {
                        data,
                        position: (position + 2) as usize,
                    })
                } else {
                    out.0 is None && out.1 == self
                },
                _ => out.0 is None && out.1 == self,
            },
    {
        match self {
            AudioStream::Recorded { data, position } => match next_sample(&data, position) {
                Some((sample, next)) => (Some(sample), AudioStream::Recorded {
                    data,
                    position: next,
                }),
                None => (None, AudioStream::Recorded { data, position }),
            },
            other => (None, other),
        }
    }
}

/// Whether a terminal type is that of headphones.
pub fn is_headphone_terminal(code: u32) -> (b: bool)
    ensures
        b == (code == OUTPUT_TERM_HEADPHONES || code == TERMINAL_HEADPHONES),
{
    code == OUTPUT_TERM_HEADPHONES || code == TERMINAL_HEADPHONES
}

/// Whether a stream's terminal type, where it could be read, is that of
/// headphones.
pub open spec fn is_headphone_stream(terminal: Option<u32>) -> bool {
    terminal == Some(OUTPUT_TERM_HEADPHONES) || terminal == Some(TERMINAL_HEADPHONES)
}

/// Whether any of the streams is a headphone's.
pub open spec fn any_headphone(terminals: Seq<Option<u32>>) -> bool {
    exists|i: int| 0 <= i < terminals.len() && is_headphone_stream(#[trigger] terminals[i])
}

/// Whether a device is a headphone, from the terminal types of its streams;
/// `None` stands for a device that is missing or whose streams could not be
/// listed.
pub fn is_headphone_from_device(terminals: &Option<Vec<Option<u32>>>) -> (b: bool)
    ensures
        b == match *terminals {
            Some(t) => any_headphone(t@),
            None => false,
        },
{
    match terminals {
        Some(t) => {
            let mut i: usize = 0;
            while i < t.len()
                invariant
                    *terminals == Some(*t),
                    i <= t.len(),
                    !any_headphone(t@.take(i as int)),
                decreases t.len() - i,
            {
                let hit = match t[i] {
                    Some(code) => is_headphone_terminal(code),
                    None => false,
                };
                if hit {
                    assert(is_headphone_stream(t@[i as int]));
                    return true;
                }
                i += 1;
                assert(!any_headphone(t@.take(i as int))) by {
                    if any_headphone(t@.take(i as int)) {
                        let k = choose|k: int|
                            0 <= k < t@.take(i as int).len() && is_headphone_stream(
                                #[trigger] t@.take(i as int)[k],
                            );
                        if k < i - 1 {
                            assert(is_headphone_stream(t@.take(i - 1)[k]));
                        }
                    }
                }
            }
            assert(t@.take(t.len() as int) =~= t@);
            false
        },
        None => false,
    }
}

/// Whether the user listens through headphones: only macOS tells, from the
/// default output device.
pub fn is_using_headphone(platform: Platform, default_output: &Option<Vec<Option<u32>>>) -> (b: bool)
    ensures
        b == match (platform, *default_output) {
            (Platform::MacOs, Some(t)) => any_headphone(t@),
            _ => false,
        },
{
    match platform {
        Platform::MacOs => is_headphone_from_device(default_output),
        _ => false,
    }
}

/// The name to show for a microphone whose name could not be read.
pub fn device_name_or_unknown(name: Option<String>) -> (out: String)
    ensures
        out@ == match name {
            Some(n) => n@,
            None => "Unknown Microphone"@,
        },
{
    match name {
        Some(n) => n,
        None => "Unknown Microphone".to_owned(),
    }
}

/// Whether a microphone is offered to the user: every one but the tap's own
/// device.
pub open spec fn is_listed(name: Seq<char>) -> bool {
    name != "hypr-audio-tap"@
}

/// The microphones offered to the user, in the order found.
pub fn listed_mic_devices(names: Vec<String>) -> (out: Vec<String>)
    ensures
        out@.map_values(|n: String| n@) == names@.map_values(|n: String| n@).filter(
            |n: Seq<char>| is_listed(n),
        ),
{
    let ghost all = names@.map_values(|n: String| n@);
    let ghost p = |n: Seq<char>| is_listed(n);
    let mut out: Vec<String> = Vec::new();
    let mut i: usize = 0;
    proof {
        reveal(Seq::filter);
        assert(all.take(0) =~= Seq::<Seq<char>>::empty());
        assert(out@.map_values(|n: String| n@) =~= all.take(0).filter(p));
    }
    while i < names.len()
        invariant
            i <= names.len(),
            all == names@.map_values(|n: String| n@),
            p == (|n: Seq<char>| is_listed(n)),
            out@.map_values(|n: String| n@) == all.take(i as int).filter(p),
        decreases names.len() - i,
    {
        let name = &names[i];
        let ghost before = out@.map_values(|n: String| n@);
        proof {
            reveal(Seq::filter);
            assert(all.take(i + 1).drop_last() =~= all.take(i as int));
            assert(all.take(i + 1).last() == name@);
        }
        if !str_eq(name.as_str(), "hypr-audio-tap") {
            out.push(name.clone());
            assert(out@.map_values(|n: String| n@) =~= before.push(name@));
        }
        i += 1;
    }
    assert(all.take(names.len() as int) =~= all);
    out
}

} // verus!
