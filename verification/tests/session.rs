use meeting_capture::actors::listener::{
    finalize_text, redemption_time_ms, stream_step, LinkedEvent, ListenerAction, ListenerActor,
    ListenerArgs, ListenerMsg, StreamPoll, StreamStep, LISTEN_STREAM_TIMEOUT_SECS,
    OUTBOUND_CAPACITY,
};
use meeting_capture::actors::recorder::{
    Next, RecMsg, RecStep, Recorder, WavFormat, ARCHIVE_QUALITY_PERMILLE, ENCODE_BLOCK_SIZE,
};
use meeting_capture::actors::session::{
    Child, ChildEvent, Lifecycle, SessionAction, SessionActor, SessionArgs, SessionEvent,
    SessionMsg, SessionState, SourceQuery, SourceRequest, StartOutcome, UserConfig,
    MAX_RESTART_ATTEMPTS, RESTART_PAUSE_MS, RPC_TIMEOUT_MS, STOP_WAIT_SECS,
};
use meeting_capture::transcript::manager::{Alternative, StreamResponse};
use meeting_capture::transcript::text::str_eq;
use meeting_capture::transcript::word::RawWord;
use std::collections::HashMap;

fn start(config: Option<UserConfig>) -> (SessionState, Vec<SessionAction>) {
    SessionActor::pre_start(
        SessionArgs { session_id: "s-1".to_string() },
        "onboarding",
        config,
        1_700_000_000_000,
    )
}

#[test]
fn startup_order() {
    let (state, plan) = start(None);
    assert_eq!(
        plan,
        vec![
            SessionAction::MarkRecordStart,
            SessionAction::Spawn(Child::Processor),
            SessionAction::Spawn(Child::Source),
            SessionAction::Spawn(Child::Recorder),
            SessionAction::Spawn(Child::Listener),
            SessionAction::AttachProcessor,
            SessionAction::Emit(SessionEvent::RunningActive),
            SessionAction::SetStartDisabled(true),
        ]
    );
    assert!(state.record_enabled);
    assert!(!state.onboarding);
    assert_eq!(state.languages, vec!["en".to_string()]);
    assert_eq!(state.session_start_ts_ms, 1_700_000_000_000);
    assert_eq!(state.session_id, "s-1");
}

#[test]
fn startup_without_recorder() {
    let (state, plan) = start(Some(UserConfig {
        save_recordings: Some(false),
        spoken_languages: vec!["ko".to_string(), "en".to_string()],
    }));
    assert!(!state.record_enabled);
    assert_eq!(state.languages, vec!["ko".to_string(), "en".to_string()]);
    assert!(!plan.contains(&SessionAction::Spawn(Child::Recorder)));
    assert_eq!(plan.len(), 7);
    assert_eq!(
        SessionActor::start_all_actors(&state),
        vec![
            SessionAction::Spawn(Child::Processor),
            SessionAction::Spawn(Child::Source),
            SessionAction::Spawn(Child::Listener),
            SessionAction::AttachProcessor,
        ]
    );
}

#[test]
fn recordings_default_to_on() {
    let (state, _) = start(Some(UserConfig { save_recordings: None, spoken_languages: vec![] }));
    assert!(state.record_enabled);
    assert!(state.languages.is_empty());
}

#[test]
fn onboarding_session_is_recognised() {
    let (state, _) = SessionActor::pre_start(
        SessionArgs { session_id: "onboarding".to_string() },
        "onboarding",
        None,
        0,
    );
    assert!(state.onboarding);
    assert_eq!(redemption_time_ms(state.onboarding), 60);
    assert_eq!(redemption_time_ms(false), 400);
}

#[test]
fn source_loss_and_restart() {
    let (mut state, _) = start(None);
    for attempt in 1..=3u32 {
        let out = SessionActor::handle_supervisor_evt(&mut state, ChildEvent::Failed(Child::Source));
        assert_eq!(out, vec![SessionAction::Spawn(Child::Source)]);
        assert_eq!(state.restart_attempts.source, attempt);
        assert!(!state.stopping);
    }
    let out = SessionActor::handle_supervisor_evt(&mut state, ChildEvent::Failed(Child::Source));
    assert_eq!(out, vec![SessionAction::StopSession]);
    assert_eq!(state.restart_attempts.source, 3);
    assert!(state.stopping);
    let plan = SessionActor::post_stop(&mut state);
    assert_eq!(
        plan,
        vec![
            SessionAction::CancelToken,
            SessionAction::Stop(Child::Processor),
            SessionAction::Stop(Child::Source),
            SessionAction::Stop(Child::Listener),
            SessionAction::Stop(Child::Recorder),
            SessionAction::MarkRecordEnd,
            SessionAction::Emit(SessionEvent::Inactive),
            SessionAction::SetStartDisabled(false),
            SessionAction::HideControlWindow,
        ]
    );
    let ended = plan.iter().position(|a| *a == SessionAction::MarkRecordEnd).unwrap();
    let inactive =
        plan.iter().position(|a| *a == SessionAction::Emit(SessionEvent::Inactive)).unwrap();
    assert!(ended < inactive);
    let after = SessionActor::handle_supervisor_evt(&mut state, ChildEvent::Terminated(Child::Source));
    assert!(after.is_empty());
    assert_eq!(state.restart_attempts.source, 3);
}

#[test]
fn restart_counters_never_exceed_the_limit() {
    let (mut state, _) = start(None);
    let children = [Child::Processor, Child::Source, Child::Recorder, Child::Listener];
    for round in 0..20 {
        let child = children[round % 4];
        state.stopping = false;
        SessionActor::handle_supervisor_evt(&mut state, ChildEvent::Terminated(child));
        let c = state.restart_attempts;
        for n in [c.processor, c.source, c.recorder, c.listener] {
            assert!(n <= MAX_RESTART_ATTEMPTS);
        }
    }
    assert_eq!(MAX_RESTART_ATTEMPTS, 3);
}

#[test]
fn counters_are_kept_per_child() {
    let (mut state, _) = start(None);
    SessionActor::handle_supervisor_evt(&mut state, ChildEvent::Failed(Child::Listener));
    SessionActor::handle_supervisor_evt(&mut state, ChildEvent::Failed(Child::Listener));
    SessionActor::handle_supervisor_evt(&mut state, ChildEvent::Failed(Child::Recorder));
    assert_eq!(state.restart_attempts.listener, 2);
    assert_eq!(state.restart_attempts.recorder, 1);
    assert_eq!(state.restart_attempts.source, 0);
    assert_eq!(state.restart_attempts.processor, 0);
}

#[test]
fn processor_restart_rebuilds_the_source() {
    let (mut state, _) = start(None);
    assert_eq!(
        SessionActor::handle_supervisor_evt(&mut state, ChildEvent::Failed(Child::Processor)),
        vec![
            SessionAction::Spawn(Child::Processor),
            SessionAction::AttachProcessor,
            SessionAction::Stop(Child::Source),
            SessionAction::Spawn(Child::Source),
        ]
    );
    assert_eq!(state.restart_attempts.processor, 1);
}

#[test]
fn started_children_and_disabled_recorder_change_nothing() {
    let (mut state, _) = start(Some(UserConfig {
        save_recordings: Some(false),
        spoken_languages: vec![],
    }));
    assert!(SessionActor::handle_supervisor_evt(&mut state, ChildEvent::Started(Child::Source))
        .is_empty());
    assert!(SessionActor::handle_supervisor_evt(&mut state, ChildEvent::Failed(Child::Recorder))
        .is_empty());
    assert_eq!(state.restart_attempts.recorder, 0);
    assert!(!state.stopping);
}

#[test]
fn control_messages() {
    assert_eq!(
        SessionActor::handle(SessionMsg::SetMicMute(true), true),
        vec![
            SessionAction::CastSource(SourceRequest::SetMicMute(true)),
            SessionAction::Emit(SessionEvent::MicMuted { value: true }),
        ]
    );
    assert_eq!(
        SessionActor::handle(SessionMsg::SetSpeakerMute(false), false),
        vec![SessionAction::Emit(SessionEvent::SpeakerMuted { value: false })]
    );
    assert_eq!(
        SessionActor::handle(SessionMsg::GetMicMute, true),
        vec![SessionAction::AskSource(SourceQuery::MicMute, 100)]
    );
    assert_eq!(
        SessionActor::handle(SessionMsg::GetSpeakerMute, false),
        vec![SessionAction::ReplyMute(false)]
    );
    assert_eq!(
        SessionActor::handle(SessionMsg::GetMicDeviceName, false),
        vec![SessionAction::ReplyDevice(None)]
    );
    assert_eq!(
        SessionActor::handle(SessionMsg::GetMicDeviceName, true),
        vec![SessionAction::AskSource(SourceQuery::MicDevice, RPC_TIMEOUT_MS)]
    );
    assert_eq!(
        SessionActor::handle(SessionMsg::ChangeMicDevice(Some("USB".to_string())), true),
        vec![SessionAction::CastSource(SourceRequest::SetMicDevice(Some("USB".to_string())))]
    );
    assert!(SessionActor::handle(SessionMsg::ChangeMicDevice(None), false).is_empty());
}

#[test]
fn timed_out_questions_get_the_default() {
    assert!(!SessionActor::mute_answer(None));
    assert!(SessionActor::mute_answer(Some(true)));
    assert_eq!(SessionActor::device_answer(None), None);
    assert_eq!(
        SessionActor::device_answer(Some(Some("Mic".to_string()))),
        Some("Mic".to_string())
    );
    assert_eq!(RPC_TIMEOUT_MS, 100);
    assert_eq!(STOP_WAIT_SECS, 3);
    assert_eq!(RESTART_PAUSE_MS, 250);
    assert_eq!(SessionActor::name(), "session");
}

#[test]
fn lifecycle_start_and_stop() {
    let mut life = Lifecycle::Inactive;
    assert_eq!(life.start("a".to_string()), StartOutcome::Started);
    assert_eq!(life, Lifecycle::RunningActive { session_id: "a".to_string() });
    assert_eq!(life.start("a".to_string()), StartOutcome::AlreadyRunning);
    assert_eq!(life.start("b".to_string()), StartOutcome::Restarted);
    assert_eq!(life, Lifecycle::RunningActive { session_id: "b".to_string() });
    assert!(life.stop());
    assert_eq!(life, Lifecycle::Inactive);
    assert!(!life.stop());
}

#[test]
fn text_equality() {
    assert!(str_eq("", ""));
    assert!(str_eq("caf\u{e9}", "caf\u{e9}"));
    assert!(!str_eq("abc", "abd"));
    assert!(!str_eq("abc", "ab"));
}

fn listener() -> meeting_capture::actors::listener::ListenerState<f32> {
    ListenerActor::pre_start(ListenerArgs {
        session_id: "s-1".to_string(),
        session_start_ts_ms: 1_000,
        languages: vec!["en".to_string()],
        onboarding: false,
        partial_words_by_channel: HashMap::new(),
    })
}

fn response(is_final: bool, words: Vec<(&str, u64, u64)>) -> StreamResponse<f32> {
    StreamResponse::Transcript {
        is_final,
        channel_index: vec![1],
        alternatives: vec![Alternative {
            words: words
                .into_iter()
                .map(|(w, s, e)| RawWord {
                    word: w.to_string(),
                    start_us: s,
                    end_us: e,
                    confidence: 1.0,
                    speaker: None,
                })
                .collect(),
        }],
    }
}

#[test]
fn listener_forwards_audio() {
    let mut st = listener();
    match ListenerActor::handle(&mut st, ListenerMsg::Audio(vec![1, 2], vec![3, 4])) {
        ListenerAction::SendAudio(mic, spk) => assert_eq!((mic, spk), (vec![1, 2], vec![3, 4])),
        _ => panic!("the frame was to be sent"),
    }
}

#[test]
fn listener_delivers_final_words() {
    let mut st = listener();
    assert_eq!(st.manager.manager_offset, 1_000);
    ListenerActor::handle(&mut st, ListenerMsg::StreamResponse(response(false, vec![("hi", 0, 5)])));
    match ListenerActor::handle(
        &mut st,
        ListenerMsg::StreamResponse(response(true, vec![(" hi ", 0, 5), ("there", 5, 9)])),
    ) {
        ListenerAction::Deliver { diff, persist } => {
            let texts: Vec<_> = persist.iter().map(|w| (w.text.as_str(), w.start_us)).collect();
            assert_eq!(texts, vec![("hi", 1_000_000), ("there", 1_000_005)]);
            assert_eq!(diff.final_words[&1].len(), 2);
            assert!(diff.partial_words[&1].is_empty());
        }
        _ => panic!("the words were to be delivered"),
    }
}

#[test]
fn listener_delivers_nothing_to_persist_for_partials() {
    let mut st = listener();
    match ListenerActor::handle(
        &mut st,
        ListenerMsg::StreamResponse(response(false, vec![("hi", 0, 5)])),
    ) {
        ListenerAction::Deliver { diff, persist } => {
            assert!(persist.is_empty());
            assert!(diff.final_words.is_empty());
            assert_eq!(diff.partial_words[&1].len(), 1);
        }
        _ => panic!("the words were to be delivered"),
    }
}

#[test]
fn listener_skips_malformed_responses() {
    let mut st = listener();
    let no_channel = StreamResponse::Transcript {
        is_final: true,
        channel_index: vec![],
        alternatives: vec![Alternative { words: vec![] }],
    };
    assert!(matches!(
        ListenerActor::handle(&mut st, ListenerMsg::StreamResponse(no_channel)),
        ListenerAction::Skip
    ));
    let no_alternative: StreamResponse<f32> = StreamResponse::Transcript {
        is_final: true,
        channel_index: vec![0],
        alternatives: vec![],
    };
    assert!(matches!(
        ListenerActor::handle(&mut st, ListenerMsg::StreamResponse(no_alternative)),
        ListenerAction::Skip
    ));
    assert!(st.manager.partial_words_by_channel.is_empty());
}

#[test]
fn listener_stops_on_stream_trouble() {
    let mut st = listener();
    match ListenerActor::handle(&mut st, ListenerMsg::StreamStartFailed("refused".to_string())) {
        ListenerAction::Stop(reason) => {
            assert_eq!(reason.as_deref(), Some("listen_ws_connect_failed: refused"))
        }
        _ => panic!("the listener was to stop"),
    }
    for msg in [
        ListenerMsg::StreamError("io".to_string()),
        ListenerMsg::StreamEnded,
        ListenerMsg::StreamTimeout,
    ] {
        assert!(matches!(ListenerActor::handle(&mut st, msg), ListenerAction::Stop(None)));
    }
    assert!(ListenerActor::handle_supervisor_evt(LinkedEvent::Failed));
    assert!(!ListenerActor::handle_supervisor_evt(LinkedEvent::Terminated));
    assert!(!ListenerActor::handle_supervisor_evt(LinkedEvent::Started));
    assert!(!ListenerActor::handle_supervisor_evt(LinkedEvent::GroupChanged));
}

#[test]
fn stream_events_become_messages() {
    assert!(matches!(stream_step::<f32>(StreamPoll::Shutdown), StreamStep::Finalize));
    assert!(matches!(
        stream_step::<f32>(StreamPoll::Response(StreamResponse::Other)),
        StreamStep::Forward(ListenerMsg::StreamResponse(StreamResponse::Other))
    ));
    match stream_step::<f32>(StreamPoll::Failed("reset".to_string())) {
        StreamStep::Last(ListenerMsg::StreamError(e)) => assert_eq!(e, "reset"),
        _ => panic!("the failure was to be reported"),
    }
    assert!(matches!(
        stream_step::<f32>(StreamPoll::Ended),
        StreamStep::Last(ListenerMsg::StreamEnded)
    ));
    assert!(matches!(
        stream_step::<f32>(StreamPoll::TimedOut),
        StreamStep::Last(ListenerMsg::StreamTimeout)
    ));
    assert_eq!(finalize_text(), "{\"type\":\"Finalize\"}");
    assert_eq!(LISTEN_STREAM_TIMEOUT_SECS, 900);
    assert_eq!(OUTBOUND_CAPACITY, 32);
    assert_eq!(ListenerActor::name(), "listener_actor");
}

#[test]
fn recorder_plans() {
    let live = WavFormat { channels: 1, sample_rate: 16000, bits_per_sample: 32, float: true };
    assert_eq!(Recorder::recording_format(), live);
    let (st, plan) = Recorder::pre_start(false, false);
    assert!(st.writer_open);
    assert_eq!(plan, vec![RecStep::CreateDir, RecStep::CreateWav(live)]);
    assert_eq!(Recorder::pre_start(false, true).1, vec![RecStep::CreateDir, RecStep::AppendWav]);
    assert_eq!(
        Recorder::pre_start(true, false).1,
        vec![
            RecStep::CreateDir,
            RecStep::DecodeArchive,
            RecStep::RemoveArchive,
            RecStep::AppendWav
        ]
    );
    assert_eq!(Recorder::pre_start(true, true).1.len(), 4);
    assert_eq!(
        Recorder::stop_steps(true, true),
        vec![RecStep::FinalizeWav, RecStep::EncodeArchive, RecStep::RemoveWav]
    );
    assert_eq!(Recorder::stop_steps(false, true), vec![RecStep::EncodeArchive, RecStep::RemoveWav]);
    assert_eq!(Recorder::stop_steps(true, false), vec![RecStep::FinalizeWav]);
    assert!(Recorder::stop_steps(false, false).is_empty());
    assert_eq!(Recorder::name(), "recorder");
    assert_eq!(Recorder::wav_file_name(), "audio.wav");
    assert_eq!(Recorder::ogg_file_name(), "audio.ogg");
    assert_eq!(ARCHIVE_QUALITY_PERMILLE, 700);
}

#[test]
fn recorder_writes_while_open() {
    let (mut st, _) = Recorder::pre_start(false, false);
    assert!(Recorder::handle(&st, &RecMsg::Audio(vec![0.5f32])));
    assert!(Recorder::post_stop(&mut st));
    assert!(!st.writer_open);
    assert!(!Recorder::handle(&st, &RecMsg::Audio(vec![0.5f32])));
    assert!(!Recorder::post_stop(&mut st));
}

#[test]
fn encoder_blocks_cover_the_samples() {
    assert_eq!(ENCODE_BLOCK_SIZE, 4096);
    assert!(Recorder::encode_blocks(0).is_empty());
    assert_eq!(Recorder::encode_blocks(1), vec![(0, 1)]);
    assert_eq!(Recorder::encode_blocks(4096), vec![(0, 4096)]);
    assert_eq!(Recorder::encode_blocks(4097), vec![(0, 4096), (4096, 4097)]);
    assert_eq!(
        Recorder::encode_blocks(10000),
        vec![(0, 4096), (4096, 8192), (8192, 10000)]
    );
    let samples: Vec<u32> = (0..10000).collect();
    let chunks: Vec<(usize, usize)> = samples
        .chunks(4096)
        .scan(0usize, |from, c| {
            let range = (*from, *from + c.len());
            *from += c.len();
            Some(range)
        })
        .collect();
    assert_eq!(Recorder::encode_blocks(samples.len()), chunks);
}

#[test]
fn decoded_format_and_channels() {
    assert_eq!(
        Recorder::decoded_format(2, 44100),
        WavFormat { channels: 2, sample_rate: 44100, bits_per_sample: 32, float: true }
    );
    assert_eq!(Recorder::encoder_channels(1), Some(1));
    assert_eq!(Recorder::encoder_channels(0), None);
    assert_eq!(Recorder::encoder_channels(256), None);
    assert_eq!(Recorder::encoder_channels(257), Some(1));
}

#[test]
fn restarted_listener_keeps_timeline_and_pending_words() {
    let mut first = listener();
    ListenerActor::handle(
        &mut first,
        ListenerMsg::StreamResponse(response(false, vec![("pending", 2_000_000, 2_500_000)])),
    );
    let carried = first.manager.partial_words_by_channel.clone();
    let mut second: meeting_capture::actors::listener::ListenerState<f32> =
        ListenerActor::pre_start(ListenerArgs {
            session_id: "s-1".to_string(),
            session_start_ts_ms: 1_000,
            languages: vec![],
            onboarding: false,
            partial_words_by_channel: carried,
        });
    assert_eq!(second.manager.manager_offset, first.manager.manager_offset);
    match ListenerActor::handle(
        &mut second,
        ListenerMsg::StreamResponse(response(true, vec![("done", 0, 1_000_000)])),
    ) {
        ListenerAction::Deliver { diff, persist } => {
            assert_eq!(persist[0].start_us, 1_000_000);
            assert_eq!(diff.partial_words[&1].len(), 1);
            assert_eq!(diff.partial_words[&1][0].text, "pending");
        }
        _ => panic!("the words were to be delivered"),
    }
}

#[test]
fn failed_steps_of_the_recorder() {
    let live = Recorder::recording_format();
    for step in [
        RecStep::CreateDir,
        RecStep::DecodeArchive,
        RecStep::RemoveArchive,
        RecStep::AppendWav,
        RecStep::CreateWav(live),
    ] {
        assert_eq!(Recorder::after_step(step, true), Next::GoOn);
        assert_eq!(Recorder::after_step(step, false), Next::Fail);
    }
    assert_eq!(Recorder::after_step(RecStep::FinalizeWav, false), Next::GoOn);
    assert_eq!(Recorder::after_step(RecStep::EncodeArchive, false), Next::Finish);
    assert_eq!(Recorder::after_step(RecStep::RemoveWav, false), Next::Finish);
    for step in [RecStep::FinalizeWav, RecStep::EncodeArchive, RecStep::RemoveWav] {
        assert_eq!(Recorder::after_step(step, true), Next::GoOn);
    }
    let mut tried = vec![];
    for step in Recorder::stop_steps(true, true) {
        tried.push(step);
        match Recorder::after_step(step, step != RecStep::EncodeArchive) {
            Next::GoOn => {}
            Next::Finish => break,
            Next::Fail => panic!("the stop was to succeed"),
        }
    }
    assert_eq!(tried, vec![RecStep::FinalizeWav, RecStep::EncodeArchive]);
}
