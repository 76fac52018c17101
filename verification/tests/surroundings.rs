use std::str::FromStr;

use meeting_capture::llm::manager::{
    ModelAccess, ModelError, ModelManager, ModelManagerBuilder, DEFAULT_ACTIVITY_CHECK_INTERVAL_MS,
    DEFAULT_INACTIVITY_THRESHOLD_MS,
};
use meeting_capture::llm::task::{
    collect_text, generate_tags, generate_title, postprocess_transcript, tags_or_default,
    task_grammar, task_templates, Grammar, Response, Task,
};
use meeting_capture::llm::template::{finish_render, registered_templates, Template};
use meeting_capture::llm::whisper::{Segment, Whisper, WhisperBuilder};
use meeting_capture::navigate::Navigate;
use meeting_capture::notification::{
    analytics_event, flag_or_default, platforms_or_default, quit_handler_change,
    timeout_or_default, NotificationMutation, QuitHandler,
};
use meeting_capture::windows::{
    after_hide, on_window_event, HyprWindow, WindowAction, WindowEvent,
};
use meeting_capture::stt::{
    health_of, push_decimal, retries_left, CommandEvent, ExternalSTTActor, ExternalSTTArgs,
    ExternalSTTMessage, InternalSTTActor, InternalSTTMessage, ModelState, ServerAction,
    ServerHealth, WatchStep, INIT_RETRY_DELAY_MS, INIT_RETRY_TIMES,
};

#[test]
fn navigate_from_str() {
    let v: Navigate = "hypr://hyprnote.com/app/new?calendarEventId=123&record=true"
        .parse()
        .unwrap();

    assert_eq!(v.path, "/app/new");
    assert_eq!(
        v.search,
        Some(vec![
            ("calendarEventId".to_string(), "123".to_string()),
            ("record".to_string(), "true".to_string()),
        ])
    );
    let mut found = serde_json::Map::new();
    for (k, value) in v.search.unwrap() {
        found.insert(k, serde_json::Value::String(value));
    }
    let mut expected = serde_json::Map::new();
    expected.insert("calendarEventId".to_string(), serde_json::Value::String("123".to_string()));
    expected.insert("record".to_string(), serde_json::Value::String("true".to_string()));
    assert_eq!(found, expected);
}

#[test]
fn navigate_without_query() {
    let v = Navigate::parse("hypr://hyprnote.com/app/note/42").unwrap();
    assert_eq!(v.path, "/app/note/42");
    assert_eq!(v.search, None);
    let decoded = Navigate::from_str("https://example.com/a%20b?q=x%20y&q=z#frag").unwrap();
    assert_eq!(decoded.path, "/a%20b");
    assert_eq!(
        decoded.search,
        Some(vec![("q".to_string(), "x y".to_string()), ("q".to_string(), "z".to_string())])
    );
}

#[test]
fn navigate_parameters_count_once_per_key() {
    let v = Navigate::parse("hypr://hyprnote.com/app/new?record=false&id=7&record=true").unwrap();
    assert_eq!(v.param("record"), Some("true".to_string()));
    assert_eq!(v.param("id"), Some("7".to_string()));
    assert_eq!(v.param("missing"), None);
    assert_eq!(Navigate::parse("hypr://hyprnote.com/app").unwrap().param("id"), None);
    let mut map = serde_json::Map::new();
    for (k, value) in v.search.clone().unwrap() {
        map.insert(k, serde_json::Value::String(value));
    }
    for (k, value) in &map {
        assert_eq!(v.param(k).as_deref(), value.as_str());
    }
}

#[test]
fn navigate_rejects_what_is_no_url() {
    assert!(Navigate::parse("not a url").is_err());
    assert_eq!(
        Navigate::parse("/app/new").err(),
        Some(url::ParseError::RelativeUrlWithoutBase)
    );
    assert_eq!(
        Navigate::from_parts("/p".to_string(), vec![]),
        Navigate { path: "/p".to_string(), search: None }
    );
}

#[test]
fn model_manager_builder_defaults() {
    let manager = ModelManager::builder().model_path("/models/llm.gguf".to_string()).build();
    assert_eq!(manager.model_path, "/models/llm.gguf");
    assert_eq!(manager.activity_check_interval, 3_000);
    assert_eq!(manager.inactivity_threshold, 150_000);
    assert_eq!(DEFAULT_ACTIVITY_CHECK_INTERVAL_MS, 3_000);
    assert_eq!(DEFAULT_INACTIVITY_THRESHOLD_MS, 150_000);
    assert!(!manager.loaded);
    assert_eq!(manager.last_activity, None);
    let tuned = ModelManagerBuilder::default()
        .activity_check_interval(10)
        .inactivity_threshold(20)
        .model_path("m".to_string())
        .build();
    assert_eq!((tuned.activity_check_interval, tuned.inactivity_threshold), (10, 20));
    assert!(ModelManagerBuilder::default().try_build().is_none());
    assert!(ModelManagerBuilder::default().model_path("m".to_string()).try_build().is_some());
}

#[test]
fn model_is_loaded_on_demand_and_unloaded_when_idle() {
    let mut manager = ModelManager::builder()
        .model_path("m".to_string())
        .inactivity_threshold(1_000)
        .build();
    assert!(!manager.monitor(5_000));
    assert_eq!(manager.get_model(100, false), Err(ModelError::ModelNotDownloaded));
    assert_eq!(manager.last_activity, Some(100));
    assert_eq!(manager.get_model(200, true), Ok(ModelAccess::Load));
    manager.finish_load(false);
    assert!(!manager.loaded);
    manager.finish_load(true);
    assert_eq!(manager.get_model(300, false), Ok(ModelAccess::Loaded));
    assert!(!manager.monitor(1_300));
    assert!(manager.loaded);
    assert!(manager.monitor(1_301));
    assert!(!manager.loaded);
    assert!(!manager.monitor(9_999));
    manager.update_activity(10_000);
    assert_eq!(manager.last_activity, Some(10_000));
    assert_eq!(manager.get_model(10_001, true), Ok(ModelAccess::Load));
}

#[test]
fn template_names() {
    let names: Vec<&str> = registered_templates().iter().map(|t| t.as_str()).collect();
    assert_eq!(
        names,
        vec![
            "enhance.system",
            "enhance.user",
            "create_title.system",
            "create_title.user",
            "suggest_tags.system",
            "suggest_tags.user",
            "chat.system",
            "chat.user",
            "auto_generate_tags.system",
            "auto_generate_tags.user",
            "postprocess_transcript.system",
            "postprocess_transcript.user",
        ]
    );
    assert_eq!(Template::ChatUser.as_str(), "chat.user");
}

#[test]
fn renderings_are_trimmed() {
    assert_eq!(finish_render(Ok("\n  Title \n".to_string())), Ok("Title".to_string()));
    assert_eq!(finish_render(Err("missing".to_string())), Err("missing".to_string()));
}

#[test]
fn task_templates_and_grammars() {
    assert_eq!(
        task_templates(Task::GenerateTitle),
        (Template::CreateTitleSystem, Template::CreateTitleUser)
    );
    assert_eq!(
        task_templates(Task::GenerateTags),
        (Template::SuggestTagsSystem, Template::SuggestTagsUser)
    );
    assert_eq!(
        task_templates(Task::PostprocessTranscript),
        (Template::PostprocessTranscriptSystem, Template::PostprocessTranscriptUser)
    );
    assert_eq!(task_grammar(Task::GenerateTitle), Some(Grammar::Title));
    assert_eq!(task_grammar(Task::GenerateTags), Some(Grammar::Tags));
    assert_eq!(task_grammar(Task::PostprocessTranscript), None);
}

#[test]
fn answers_are_joined_and_read() {
    let answer = vec![
        Response::TextDelta("[\"al".to_string()),
        Response::Other,
        Response::TextDelta("pha\", ".to_string()),
        Response::TextDelta("\"beta\"]".to_string()),
    ];
    assert_eq!(collect_text(&answer), "[\"alpha\", \"beta\"]");
    assert_eq!(generate_title(&answer), "[\"alpha\", \"beta\"]");
    assert_eq!(postprocess_transcript(&answer), "[\"alpha\", \"beta\"]");
    assert_eq!(generate_tags(&answer), vec!["alpha".to_string(), "beta".to_string()]);
    assert_eq!(collect_text(&vec![]), "");
}

#[test]
fn unreadable_tags_give_none() {
    assert!(generate_tags(&vec![Response::TextDelta("alpha, beta".to_string())]).is_empty());
    assert!(generate_tags(&vec![Response::TextDelta("[1, 2]".to_string())]).is_empty());
    assert!(generate_tags(&vec![Response::TextDelta("[\"a\"] x".to_string())]).is_empty());
    assert!(generate_tags(&vec![]).is_empty());
    assert_eq!(generate_tags(&vec![Response::TextDelta("[]".to_string())]), Vec::<String>::new());
    assert_eq!(tags_or_default::<()>(Err(())), Vec::<String>::new());
    assert_eq!(tags_or_default::<()>(Ok(vec!["t".to_string()])), vec!["t".to_string()]);
}

#[test]
fn whisper_stand_in() {
    let builder: WhisperBuilder = Whisper::builder();
    let mut whisper = builder
        .model_path("anything".to_string())
        .languages(vec!["en".to_string()])
        .build()
        .unwrap();
    let segments = whisper.transcribe(&vec![0.0f32; 16], 1.0f32).unwrap();
    assert_eq!(segments.len(), 1);
    let s = &segments[0];
    assert_eq!(s.text(), "mock");
    assert_eq!(s.language(), None);
    assert_eq!((s.start(), s.end(), s.duration()), (0, 1_000_000, 1_000_000));
    assert_eq!(s.confidence(), 1.0);
    let backwards = Segment {
        text: "x".to_string(),
        language: Some("ko".to_string()),
        start_us: 5,
        end_us: 2,
        confidence: 0u8,
    };
    assert_eq!(backwards.duration(), -3);
    assert_eq!(backwards.language(), Some("ko"));
}

#[test]
fn server_addresses() {
    let st = ExternalSTTActor::pre_start(
        ExternalSTTArgs { api_key: "key".to_string(), models_dir: "/m".to_string() },
        50123,
    );
    assert_eq!(st.base_url, "http://localhost:50123");
    assert_eq!(st.api_key.as_deref(), Some("key"));
    assert_eq!(InternalSTTActor::pre_start(0).base_url, "http://127.0.0.1:0");
    assert_eq!(InternalSTTActor::pre_start(u16::MAX).base_url, "http://127.0.0.1:65535");
    for n in [0u64, 7, 10, 99, 100, 12345, u64::MAX] {
        let mut text = String::from("n=");
        push_decimal(&mut text, n);
        assert_eq!(text, format!("n={}", n));
    }
}

#[test]
fn server_health() {
    assert_eq!(health_of(Some(ModelState::Loading)), ServerHealth::Loading);
    assert_eq!(health_of(Some(ModelState::Loaded)), ServerHealth::Ready);
    assert_eq!(health_of(Some(ModelState::Unloaded)), ServerHealth::Unreachable);
    assert_eq!(health_of(None), ServerHealth::Unreachable);
    assert!(retries_left(0));
    assert!(retries_left(20));
    assert!(!retries_left(21));
    assert_eq!((INIT_RETRY_TIMES, INIT_RETRY_DELAY_MS), (20, 500));
}

#[test]
fn server_process_events() {
    assert_eq!(ExternalSTTActor::watch(CommandEvent::Output(vec![104, 105])), WatchStep::Log(vec![104, 105]));
    assert_eq!(
        ExternalSTTActor::watch(CommandEvent::Terminated("code 1".to_string())),
        WatchStep::Report(ExternalSTTMessage::ProcessTerminated("code 1".to_string()))
    );
    assert_eq!(
        ExternalSTTActor::watch(CommandEvent::Error("spawn".to_string())),
        WatchStep::Report(ExternalSTTMessage::ProcessTerminated("spawn".to_string()))
    );
    assert_eq!(ExternalSTTActor::watch(CommandEvent::Closed), WatchStep::Leave);
    assert_eq!(ExternalSTTActor::watch(CommandEvent::Other), WatchStep::Continue);
    assert_eq!(
        ExternalSTTActor::handle(ExternalSTTMessage::ProcessTerminated("gone".to_string())),
        ServerAction::Stop("gone".to_string())
    );
    assert_eq!(ExternalSTTActor::handle(ExternalSTTMessage::GetHealth), ServerAction::AskStatus);
    let st = InternalSTTActor::pre_start(8080);
    assert_eq!(
        InternalSTTActor::handle(&st, InternalSTTMessage::GetHealth),
        ServerAction::Reply("http://127.0.0.1:8080".to_string(), ServerHealth::Ready)
    );
    assert_eq!(
        InternalSTTActor::handle(&st, InternalSTTMessage::ServerError("boom".to_string())),
        ServerAction::Fail("boom".to_string())
    );
    assert_eq!(ExternalSTTActor::name(), "external_stt");
    assert_eq!(InternalSTTActor::name(), "internal_stt");
}

#[test]
fn notification_settings() {
    assert!(!flag_or_default(None));
    assert!(flag_or_default(Some(true)));
    assert!(platforms_or_default(None).is_empty());
    assert_eq!(platforms_or_default(Some(vec!["zoom".to_string()])), vec!["zoom".to_string()]);
    assert_eq!(quit_handler_change(true, false), QuitHandler::Install);
    assert_eq!(quit_handler_change(true, true), QuitHandler::Install);
    assert_eq!(quit_handler_change(false, true), QuitHandler::Reset);
    assert_eq!(quit_handler_change(false, false), QuitHandler::Keep);
    assert_eq!(timeout_or_default(None), 5_000);
    assert_eq!(timeout_or_default(Some(3_000)), 3_000);
    assert_eq!(analytics_event(NotificationMutation::Confirm), "notification_confirm");
    assert_eq!(analytics_event(NotificationMutation::Dismiss), "notification_dismiss");
}

#[test]
fn window_events() {
    assert_eq!(
        on_window_event(WindowEvent::CloseRequested, Some(HyprWindow::Main)),
        vec![WindowAction::Hide]
    );
    assert!(on_window_event(WindowEvent::CloseRequested, Some(HyprWindow::Control)).is_empty());
    assert_eq!(
        on_window_event(WindowEvent::CloseRequested, None),
        vec![WindowAction::WarnUnknownWindow]
    );
    assert_eq!(
        on_window_event(WindowEvent::Destroyed, Some(HyprWindow::Control)),
        vec![
            WindowAction::Forget(HyprWindow::Control),
            WindowAction::EmitDestroyed(HyprWindow::Control),
            WindowAction::MainWindowHidden,
        ]
    );
    assert_eq!(on_window_event(WindowEvent::Destroyed, None), vec![WindowAction::WarnUnknownWindow]);
    assert!(on_window_event(WindowEvent::Other, Some(HyprWindow::Main)).is_empty());
    assert_eq!(after_hide(true), vec![WindowAction::PreventClose, WindowAction::MainWindowHidden]);
    assert!(after_hide(false).is_empty());
}
