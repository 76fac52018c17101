use meeting_capture::actors::joiner::{Joiner, QUEUE_CAPACITY};
use meeting_capture::actors::processor::{
    process_ready, AudioChunk, ProcMsg, ProcessorActor, AUDIO_AMPLITUDE_THROTTLE_MS,
};
use meeting_capture::actors::source::{
    capture_mode, mic_loop_step, source_loop_step, speaker_loop_step, CaptureMode, DeviceEvent,
    LoopAction, LoopEvent, MicArgs, MicCtrl, MicSourceActor, MicState, SourceActor, SourceArgs,
    SourceEffect, SourceMsg, SpeakerSourceActor, SpkArgs, SpkCtrl, PROCESSOR_WAIT_MS,
};
use meeting_capture::audio::block::{apply_mute, copy_block, silence, BLOCK_SIZE, SAMPLE_RATE};
use meeting_capture::audio::pcm::{frame_bytes, next_sample, to_pcm16_le};

fn block(value: f32) -> Vec<f32> {
    vec![value; BLOCK_SIZE]
}

#[test]
fn block_constants() {
    assert_eq!(BLOCK_SIZE, 512);
    assert_eq!(SAMPLE_RATE, 16000);
    assert_eq!(QUEUE_CAPACITY, 10);
    assert_eq!(AUDIO_AMPLITUDE_THROTTLE_MS, 100);
}

#[test]
fn silence_has_the_length_asked_for() {
    assert_eq!(silence(3, 0.0f32), vec![0.0, 0.0, 0.0]);
    assert_eq!(silence(0, 7u8), Vec::<u8>::new());
    assert_eq!(copy_block(&vec![1, 2, 3]), vec![1, 2, 3]);
}

#[test]
fn mute_zeroes_and_keeps_length() {
    assert_eq!(apply_mute(true, vec![0.5f32, -0.25, 1.0], 0.0), vec![0.0, 0.0, 0.0]);
    assert_eq!(apply_mute(false, vec![0.5f32, -0.25], 0.0), vec![0.5, -0.25]);
}

#[test]
fn pop_pair_on_empty_queues() {
    let mut joiner: Joiner<f32> = Joiner::new();
    assert!(joiner.pop_pair(0.0).is_none());
}

#[test]
fn pop_pair_fills_the_absent_side() {
    let mut joiner: Joiner<f32> = Joiner::new();
    joiner.push_spk(vec![0.1, 0.2, 0.3]);
    assert_eq!(joiner.pop_pair(0.0), Some((vec![0.0, 0.0, 0.0], vec![0.1, 0.2, 0.3])));
    joiner.push_mic(vec![0.4, 0.5]);
    assert_eq!(joiner.pop_pair(0.0), Some((vec![0.4, 0.5], vec![0.0, 0.0])));
    assert_eq!(joiner.pop_pair(0.0), None);
}

#[test]
fn pop_pair_takes_the_oldest_of_each_side() {
    let mut joiner: Joiner<i16> = Joiner::new();
    joiner.push_mic(vec![1]);
    joiner.push_mic(vec![2]);
    joiner.push_spk(vec![3]);
    assert_eq!(joiner.pop_pair(0), Some((vec![1], vec![3])));
    assert_eq!(joiner.mic_len(), 1);
    assert_eq!(joiner.spk_len(), 0);
    assert_eq!(joiner.pop_pair(0), Some((vec![2], vec![0])));
}

#[test]
fn unequal_fronts_give_an_unequal_frame() {
    let mut joiner: Joiner<i16> = Joiner::new();
    joiner.push_mic(vec![1, 1, 1]);
    joiner.push_spk(vec![2]);
    let (mic, spk) = joiner.pop_pair(0).unwrap();
    assert_eq!((mic.len(), spk.len()), (3, 1));
}

#[test]
fn overflow_drops_the_oldest() {
    let mut joiner: Joiner<i16> = Joiner::new();
    for i in 0..10 {
        assert!(!joiner.push_mic(vec![i]));
    }
    assert_eq!(joiner.mic_len(), 10);
    assert!(joiner.push_mic(vec![10]));
    assert_eq!(joiner.mic_len(), 10);
    assert_eq!(joiner.pop_pair(0), Some((vec![1], vec![0])));
    assert!(!joiner.push_spk(vec![7]));
}

#[test]
fn join_with_mic_lag() {
    let mut st = ProcessorActor::pre_start::<f32>(0);
    let first = ProcessorActor::handle(
        &mut st,
        ProcMsg::Speaker(AudioChunk { data: block(0.25) }),
        0.0,
        10,
    );
    let second = ProcessorActor::handle(
        &mut st,
        ProcMsg::Speaker(AudioChunk { data: block(0.5) }),
        0.0,
        20,
    );
    let mut frames = first.frames;
    frames.extend(second.frames);
    assert_eq!(frames.len(), 2);
    assert_eq!(frames[0], (block(0.0), block(0.25)));
    assert_eq!(frames[1], (block(0.0), block(0.5)));
    for (mic, spk) in &frames {
        assert_eq!(mic.len(), spk.len());
        assert_eq!(mic.len(), 512);
    }
    let third = ProcessorActor::handle(
        &mut st,
        ProcMsg::Mic(AudioChunk { data: block(0.75) }),
        0.0,
        30,
    );
    assert_eq!(third.frames, vec![(block(0.75), block(0.0))]);
}

#[test]
fn queued_blocks_pair_up_when_drained() {
    let mut joiner: Joiner<f32> = Joiner::new();
    joiner.push_spk(block(0.25));
    joiner.push_spk(block(0.5));
    joiner.push_mic(block(0.75));
    assert_eq!(joiner.pop_pair(0.0), Some((block(0.75), block(0.25))));
    assert_eq!(joiner.pop_pair(0.0), Some((block(0.0), block(0.5))));
    assert_eq!(joiner.pop_pair(0.0), None);
}

#[test]
fn mixed_block_travels_on_the_speaker_side() {
    let mut st = ProcessorActor::pre_start::<f32>(0);
    let out = ProcessorActor::handle(
        &mut st,
        ProcMsg::Mixed(AudioChunk { data: vec![0.5, 0.25] }),
        0.0,
        1,
    );
    assert_eq!(out.frames, vec![(vec![0.0, 0.0], vec![0.5, 0.25])]);
    assert!(out.amplitude.is_none());
}

#[test]
fn amplitude_report_is_throttled() {
    let mut st = ProcessorActor::pre_start::<f32>(1000);
    let a = ProcessorActor::handle(&mut st, ProcMsg::Mic(AudioChunk { data: vec![0.5] }), 0.0, 1200);
    assert!(a.amplitude.is_none());
    let b = ProcessorActor::handle(
        &mut st,
        ProcMsg::Speaker(AudioChunk { data: vec![0.25] }),
        0.0,
        1099,
    );
    assert!(b.amplitude.is_none());
    let c = ProcessorActor::handle(
        &mut st,
        ProcMsg::Speaker(AudioChunk { data: vec![0.125] }),
        0.0,
        1100,
    );
    assert_eq!(c.amplitude, Some((vec![0.5], vec![0.125])));
    let d = process_ready(&mut st, 0.0, 1199);
    assert!(d.amplitude.is_none());
    assert!(d.frames.is_empty());
    let e = process_ready(&mut st, 0.0, 1200);
    assert_eq!(e.amplitude, Some((vec![0.5], vec![0.125])));
}

#[test]
fn processor_name() {
    assert_eq!(ProcessorActor::name(), "processor_actor");
}

#[test]
fn pcm_bytes_are_little_endian() {
    assert_eq!(
        to_pcm16_le(&vec![0, 1, -1, 256, i16::MAX, i16::MIN, -2]),
        vec![0, 0, 1, 0, 255, 255, 0, 1, 255, 127, 0, 128, 254, 255]
    );
    assert_eq!(to_pcm16_le(&vec![]), Vec::<u8>::new());
}

#[test]
fn pcm_round_trip() {
    for sample in [0i16, 1, -1, 12345, -12345, i16::MAX, i16::MIN] {
        let bytes = to_pcm16_le(&vec![sample]);
        assert_eq!(bytes, sample.to_le_bytes().to_vec());
        assert_eq!(next_sample(&bytes, 0), Some((sample, 2)));
    }
}

#[test]
fn next_sample_stops_at_the_end() {
    let data = vec![1u8, 0, 2];
    assert_eq!(next_sample(&data, 0), Some((1, 2)));
    assert_eq!(next_sample(&data, 2), None);
    assert_eq!(next_sample(&data, 3), None);
    assert_eq!(next_sample(&data, usize::MAX), None);
}

#[test]
fn muted_channel_sends_zero_bytes() {
    let mut st = SourceActor::pre_start(SourceArgs { device: None }, "Built-in".to_string());
    assert_eq!(SourceActor::handle(&mut st, SourceMsg::SetMicMute(true)), SourceEffect::Done);
    for _ in 0..3 {
        match source_loop_step(&st, LoopEvent::Mic(Some(vec![100i16, -200, 300])), 0) {
            LoopAction::Send(ProcMsg::Mic(chunk)) => {
                assert_eq!(chunk.data, vec![0, 0, 0]);
                assert_eq!(to_pcm16_le(&chunk.data), vec![0u8; 6]);
            }
            _ => panic!("a block was expected"),
        }
    }
    match source_loop_step(&st, LoopEvent::Speaker(Some(vec![5i16])), 0) {
        LoopAction::Send(ProcMsg::Speaker(chunk)) => assert_eq!(chunk.data, vec![5]),
        _ => panic!("a block was expected"),
    }
    SourceActor::handle(&mut st, SourceMsg::SetMicMute(false));
    match source_loop_step(&st, LoopEvent::Mic(Some(vec![100i16])), 0) {
        LoopAction::Send(ProcMsg::Mic(chunk)) => assert_eq!(chunk.data, vec![100]),
        _ => panic!("a block was expected"),
    }
}

#[test]
fn mixed_block_is_muted_by_the_speaker_flag() {
    let mut st = SourceActor::pre_start(SourceArgs { device: None }, "Built-in".to_string());
    SourceActor::handle(&mut st, SourceMsg::SetMicMute(true));
    match source_loop_step(&st, LoopEvent::Mixed(Some(vec![9i16, 8])), 0) {
        LoopAction::Send(ProcMsg::Mixed(chunk)) => assert_eq!(chunk.data, vec![9, 8]),
        _ => panic!("a block was expected"),
    }
    SourceActor::handle(&mut st, SourceMsg::SetSpkMute(true));
    for mic_muted in [true, false] {
        SourceActor::handle(&mut st, SourceMsg::SetMicMute(mic_muted));
        match source_loop_step(&st, LoopEvent::Mixed(Some(vec![9i16, 8])), 0) {
            LoopAction::Send(msg @ ProcMsg::Mixed(_)) => {
                let mut proc = ProcessorActor::pre_start::<i16>(0);
                let out = ProcessorActor::handle(&mut proc, msg, 0, 1);
                assert_eq!(out.frames, vec![(vec![0, 0], vec![0, 0])]);
                let (mic_bytes, spk_bytes) = frame_bytes(&out.frames[0].0, &out.frames[0].1);
                assert_eq!(mic_bytes, vec![0u8; 4]);
                assert_eq!(spk_bytes, vec![0u8; 4]);
            }
            _ => panic!("a block was expected"),
        }
    }
    SourceActor::handle(&mut st, SourceMsg::SetSpkMute(false));
    match source_loop_step(&st, LoopEvent::Mixed(Some(vec![9i16, 8])), 0) {
        LoopAction::Send(ProcMsg::Mixed(chunk)) => assert_eq!(chunk.data, vec![9, 8]),
        _ => panic!("a block was expected"),
    }
}

#[test]
fn frame_sides_are_encoded_apart() {
    let (mic_bytes, spk_bytes) = frame_bytes(&vec![0, 0, 0], &vec![1, -1, 256]);
    assert_eq!(mic_bytes, vec![0u8; 6]);
    assert_eq!(spk_bytes, vec![1, 0, 255, 255, 0, 1]);
    let (mic_bytes, spk_bytes) = frame_bytes(&vec![2], &vec![0]);
    assert_eq!((mic_bytes, spk_bytes), (vec![2, 0], vec![0, 0]));
}

#[test]
fn loop_leaves_on_cancellation_and_end() {
    let st = SourceActor::pre_start(SourceArgs { device: None }, "Built-in".to_string());
    assert!(matches!(
        source_loop_step::<f32>(&st, LoopEvent::Cancelled, 0.0),
        LoopAction::StopActor
    ));
    assert!(matches!(
        source_loop_step::<f32>(&st, LoopEvent::StreamCancelled, 0.0),
        LoopAction::Leave
    ));
    assert!(matches!(
        source_loop_step::<f32>(&st, LoopEvent::ProcessorMissing, 0.0),
        LoopAction::Wait(PROCESSOR_WAIT_MS)
    ));
    assert_eq!(PROCESSOR_WAIT_MS, 100);
    assert!(matches!(
        source_loop_step::<f32>(&st, LoopEvent::Mic(None), 0.0),
        LoopAction::Finish
    ));
    assert!(matches!(
        source_loop_step::<f32>(&st, LoopEvent::Speaker(None), 0.0),
        LoopAction::Finish
    ));
    let mic = MicState { device: None, muted: false };
    assert!(matches!(mic_loop_step::<f32>(&mic, LoopEvent::Mic(None), 0.0), LoopAction::Finish));
    let spk = SpeakerSourceActor::pre_start(SpkArgs {});
    assert!(matches!(
        speaker_loop_step::<f32>(&spk, LoopEvent::Speaker(None), 0.0),
        LoopAction::Reopen
    ));
}

#[test]
fn source_messages() {
    let mut st = SourceActor::pre_start(
        SourceArgs { device: Some("USB".to_string()) },
        "Built-in".to_string(),
    );
    assert_eq!(st.mic_device.as_deref(), Some("USB"));
    assert_eq!(SourceActor::handle(&mut st, SourceMsg::GetMicMute), SourceEffect::ReplyMute(false));
    SourceActor::handle(&mut st, SourceMsg::SetSpkMute(true));
    assert_eq!(SourceActor::handle(&mut st, SourceMsg::GetSpkMute), SourceEffect::ReplyMute(true));
    assert_eq!(
        SourceActor::handle(&mut st, SourceMsg::GetMicDevice),
        SourceEffect::ReplyDevice(Some("USB".to_string()))
    );
    assert_eq!(
        SourceActor::handle(&mut st, SourceMsg::SetMicDevice(None)),
        SourceEffect::RestartLoop
    );
    assert_eq!(st.mic_device, None);
    assert!(st.spk_muted);
    let fallback = SourceActor::pre_start(SourceArgs { device: None }, "Built-in".to_string());
    assert_eq!(fallback.mic_device.as_deref(), Some("Built-in"));
    assert_eq!(
        SourceActor::on_device_event(DeviceEvent::DefaultOutputChanged, "New".to_string()),
        SourceMsg::SetMicDevice(Some("New".to_string()))
    );
    assert_eq!(SourceActor::name(), "source");
}

#[test]
fn mic_and_speaker_sources() {
    let mut mic = MicSourceActor::pre_start(
        MicArgs { device: Some("asked".to_string()) },
        "default".to_string(),
    );
    assert_eq!(mic.device.as_deref(), Some("default"));
    assert_eq!(MicSourceActor::handle(&mut mic, MicCtrl::SetMute(true)), SourceEffect::Done);
    assert_eq!(MicSourceActor::handle(&mut mic, MicCtrl::GetMute), SourceEffect::ReplyMute(true));
    assert_eq!(
        MicSourceActor::handle(&mut mic, MicCtrl::SetDevice(Some("x".to_string()))),
        SourceEffect::RestartLoop
    );
    assert_eq!(
        MicSourceActor::handle(&mut mic, MicCtrl::GetDevice),
        SourceEffect::ReplyDevice(Some("x".to_string()))
    );
    assert_eq!(
        MicSourceActor::on_device_event(DeviceEvent::DefaultInputChanged, "n".to_string()),
        Some(MicCtrl::SetDevice(Some("n".to_string())))
    );
    assert_eq!(
        MicSourceActor::on_device_event(DeviceEvent::DefaultOutputChanged, "n".to_string()),
        None
    );
    match mic_loop_step(&mic, LoopEvent::Mic(Some(vec![1.0f32])), 0.0) {
        LoopAction::Send(ProcMsg::Mic(chunk)) => assert_eq!(chunk.data, vec![0.0]),
        _ => panic!("a block was expected"),
    }
    let mut spk = SpeakerSourceActor::pre_start(SpkArgs {});
    assert_eq!(SpeakerSourceActor::handle(&mut spk, SpkCtrl::GetMute), SourceEffect::ReplyMute(false));
    SpeakerSourceActor::handle(&mut spk, SpkCtrl::SetMute(true));
    match speaker_loop_step(&spk, LoopEvent::Speaker(Some(vec![1.0f32, 2.0])), 0.0) {
        LoopAction::Send(ProcMsg::Speaker(chunk)) => assert_eq!(chunk.data, vec![0.0, 0.0]),
        _ => panic!("a block was expected"),
    }
    assert_eq!(MicSourceActor::name(), "source_mic");
    assert_eq!(SpeakerSourceActor::name(), "source_spk");
}

#[test]
fn capture_mode_prefers_the_tap_without_headphones() {
    assert_eq!(capture_mode(true, false), CaptureMode::Mixed);
    assert_eq!(capture_mode(true, true), CaptureMode::Independent);
    assert_eq!(capture_mode(false, false), CaptureMode::Independent);
    assert_eq!(capture_mode(false, true), CaptureMode::Independent);
}
