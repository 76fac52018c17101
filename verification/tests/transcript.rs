use std::collections::HashMap;

use meeting_capture::transcript::manager::{
    Alternative, Diff, StreamResponse, TranscriptManager, WordsByChannel,
};
use meeting_capture::transcript::normalize::{merge, normalize_words};
use meeting_capture::transcript::text::{starts_with_apostrophe, trim};
use meeting_capture::transcript::word::{RawWord, Word};

fn micros(seconds: f64) -> u64 {
    (seconds * 1_000_000.0).round() as u64
}

fn raw(word: &str, start_s: f64, end_s: f64) -> RawWord<f32> {
    RawWord {
        word: word.to_string(),
        start_us: micros(start_s),
        end_us: micros(end_s),
        confidence: 0.9,
        speaker: None,
    }
}

fn transcript(is_final: bool, channel: usize, words: Vec<RawWord<f32>>) -> StreamResponse<f32> {
    StreamResponse::Transcript {
        is_final,
        channel_index: vec![channel],
        alternatives: vec![Alternative { words }],
    }
}

fn shape(words: &[Word<f32>]) -> Vec<(String, u128, u128, usize)> {
    words
        .iter()
        .map(|w| (w.text.clone(), w.start_us, w.end_us, w.speaker))
        .collect()
}

fn shape_map(m: &HashMap<usize, Vec<Word<f32>>>) -> Vec<(usize, Vec<(String, u128, u128, usize)>)> {
    let mut out: Vec<_> = m.iter().map(|(k, v)| (*k, shape(v))).collect();
    out.sort();
    out
}

fn word(text: &str, start_us: u128, end_us: u128, speaker: usize) -> (String, u128, u128, usize) {
    (text.to_string(), start_us, end_us, speaker)
}

#[test]
fn simple_final_word() {
    let mut manager: TranscriptManager<f32> = TranscriptManager::builder()
        .with_manager_offset(1_700_000_000_000)
        .build();
    let diff = manager.append(transcript(true, 0, vec![raw(" hello ", 0.10, 0.40)]));
    assert_eq!(
        shape_map(&diff.final_words),
        vec![(
            0,
            vec![word(
                "hello",
                1_700_000_000_100_000,
                1_700_000_000_400_000,
                0
            )]
        )]
    );
    assert!(diff.partial_words.is_empty());
    let w = &diff.final_words[&0][0];
    assert_eq!(w.start_us as f64 / 1_000_000.0, 1_700_000_000.10);
    assert_eq!(w.end_us as f64 / 1_000_000.0, 1_700_000_000.40);
    assert_eq!(w.confidence, 0.9);
}

#[test]
fn contraction_merge() {
    let mut manager: TranscriptManager<f32> = TranscriptManager::builder().build();
    let diff = manager.append(transcript(
        true,
        0,
        vec![raw("it", 0.0, 0.2), raw("'s", 0.2, 0.3), raw("ok", 0.3, 0.5)],
    ));
    assert_eq!(
        shape_map(&diff.final_words),
        vec![(
            0,
            vec![word("it's", 0, 300_000, 0), word("ok", 300_000, 500_000, 0)]
        )]
    );
}

#[test]
fn partial_then_final() {
    let mut manager: TranscriptManager<f32> = TranscriptManager::builder().build();
    let first = manager.append(transcript(
        false,
        0,
        vec![raw("a", 0.0, 0.3), raw("b", 0.3, 0.6)],
    ));
    assert!(first.final_words.is_empty());
    assert_eq!(
        shape_map(&first.partial_words),
        vec![(
            0,
            vec![word("a", 0, 300_000, 0), word("b", 300_000, 600_000, 0)]
        )]
    );
    let second = manager.append(transcript(
        true,
        0,
        vec![raw("a", 0.0, 0.3), raw("b", 0.3, 0.6), raw("c", 0.6, 0.9)],
    ));
    assert_eq!(
        shape_map(&second.final_words),
        vec![(
            0,
            vec![
                word("a", 0, 300_000, 0),
                word("b", 300_000, 600_000, 0),
                word("c", 600_000, 900_000, 0)
            ]
        )]
    );
    assert_eq!(shape_map(&second.partial_words), vec![(0, vec![])]);
    assert_eq!(shape_map(&manager.partial_words_by_channel), vec![(0, vec![])]);
}

#[test]
fn empty_words_response_changes_nothing() {
    let mut manager: TranscriptManager<f32> = TranscriptManager::builder().build();
    manager.append(transcript(false, 1, vec![raw("pending", 1.0, 1.5)]));
    let before = shape_map(&manager.partial_words_by_channel);
    let diff = manager.append(transcript(true, 1, vec![]));
    assert!(diff.final_words.is_empty());
    assert_eq!(shape_map(&diff.partial_words), before);
    assert_eq!(shape_map(&manager.partial_words_by_channel), before);
}

#[test]
fn blank_words_are_dropped() {
    let mut manager: TranscriptManager<f32> = TranscriptManager::builder().build();
    let diff = manager.append(transcript(
        true,
        0,
        vec![raw("   ", 0.0, 0.1), raw("\t\n", 0.1, 0.2)],
    ));
    assert!(diff.final_words.is_empty());
    assert!(diff.partial_words.is_empty());
}

#[test]
fn other_responses_are_ignored() {
    let mut manager: TranscriptManager<f32> = TranscriptManager::builder().build();
    manager.append(transcript(false, 0, vec![raw("kept", 0.0, 0.5)]));
    let diff = manager.append(StreamResponse::Other);
    assert!(diff.final_words.is_empty());
    assert_eq!(
        shape_map(&diff.partial_words),
        vec![(0, vec![word("kept", 0, 500_000, 0)])]
    );
}

#[test]
fn speaker_defaults_to_channel() {
    let mut manager: TranscriptManager<f32> = TranscriptManager::builder().build();
    let mut tagged = raw("you", 0.5, 0.8);
    tagged.speaker = Some(7);
    let diff = manager.append(transcript(true, 1, vec![raw("hi", 0.0, 0.4), tagged]));
    assert_eq!(
        shape_map(&diff.final_words),
        vec![(
            1,
            vec![word("hi", 0, 400_000, 1), word("you", 500_000, 800_000, 7)]
        )]
    );
}

#[test]
fn leading_contraction_stands_alone() {
    let words = merge(normalize_words::<f32>(
        0,
        0,
        &vec![raw("'tis", 0.0, 0.2), raw("'s", 0.2, 0.3), raw("'t", 0.3, 0.4)],
    ));
    assert_eq!(shape(&words), vec![word("'tis's't", 0, 400_000, 0)]);
}

#[test]
fn final_turn_keeps_later_partials() {
    let mut manager: TranscriptManager<f32> = TranscriptManager::builder().build();
    manager.append(transcript(
        false,
        0,
        vec![raw("a", 0.0, 0.3), raw("b", 0.3, 0.6), raw("c", 0.7, 0.9)],
    ));
    let diff = manager.append(transcript(true, 0, vec![raw("a", 0.0, 0.3), raw("b", 0.3, 0.6)]));
    let pending = &diff.partial_words[&0];
    assert_eq!(shape(pending), vec![word("c", 700_000, 900_000, 0)]);
    assert!(pending.iter().all(|w| w.start_us > 600_000));
}

#[test]
fn partial_turn_replaces_the_overlap() {
    let mut manager: TranscriptManager<f32> = TranscriptManager::builder().build();
    manager.append(transcript(
        false,
        0,
        vec![
            raw("one", 0.0, 0.2),
            raw("two", 0.2, 0.4),
            raw("three", 0.4, 0.6),
            raw("four", 0.6, 0.8),
        ],
    ));
    let diff = manager.append(transcript(
        false,
        0,
        vec![raw("too", 0.2, 0.4), raw("tree", 0.4, 0.6)],
    ));
    assert_eq!(
        shape(&diff.partial_words[&0]),
        vec![
            word("one", 0, 200_000, 0),
            word("too", 200_000, 400_000, 0),
            word("tree", 400_000, 600_000, 0),
            word("four", 600_000, 800_000, 0)
        ]
    );
}

#[test]
fn same_partial_twice_is_idempotent() {
    let mut manager: TranscriptManager<f32> = TranscriptManager::builder().build();
    manager.append(transcript(false, 0, vec![raw("zero", 0.0, 0.1)]));
    let turn = || transcript(false, 0, vec![raw("a", 0.1, 0.3), raw("b", 0.3, 0.6)]);
    let first = manager.append(turn());
    let second = manager.append(turn());
    assert_eq!(shape_map(&first.partial_words), shape_map(&second.partial_words));
    assert_eq!(
        shape(&second.partial_words[&0]),
        vec![
            word("zero", 0, 100_000, 0),
            word("a", 100_000, 300_000, 0),
            word("b", 300_000, 600_000, 0)
        ]
    );
}

#[test]
fn zero_length_partial_is_not_idempotent() {
    let mut manager: TranscriptManager<f32> = TranscriptManager::builder().build();
    let turn = || transcript(false, 0, vec![raw("x", 1.0, 1.0)]);
    let first = manager.append(turn());
    let second = manager.append(turn());
    assert_eq!(first.partial_words[&0].len(), 1);
    assert_eq!(second.partial_words[&0].len(), 3);
}

#[test]
fn channels_are_kept_apart() {
    let mut manager: TranscriptManager<f32> = TranscriptManager::builder().build();
    manager.append(transcript(false, 0, vec![raw("mic", 0.0, 0.2)]));
    let diff = manager.append(transcript(false, 1, vec![raw("spk", 0.0, 0.2)]));
    assert_eq!(
        shape_map(&diff.partial_words),
        vec![
            (0, vec![word("mic", 0, 200_000, 0)]),
            (1, vec![word("spk", 0, 200_000, 1)])
        ]
    );
}

#[test]
fn builder_takes_existing_partials() {
    let mut existing: WordsByChannel<f32> = HashMap::new();
    existing.insert(
        0,
        vec![Word {
            text: "old".to_string(),
            start_us: 5,
            end_us: 9,
            confidence: 0.5,
            speaker: 0,
        }],
    );
    let mut manager = TranscriptManager::builder()
        .with_manager_offset(2)
        .with_existing_partial_words(existing)
        .build();
    assert_eq!(manager.manager_offset, 2);
    let diff: Diff<f32> = manager.append(StreamResponse::Other);
    assert_eq!(shape_map(&diff.partial_words), vec![(0, vec![word("old", 5, 9, 0)])]);
}

#[test]
fn managers_get_distinct_ids() {
    let a: TranscriptManager<f32> = TranscriptManager::builder().build();
    let b: TranscriptManager<f32> = TranscriptManager::builder().build();
    assert_ne!(a.id, b.id);
    assert_eq!(a.id.get_version_num(), 4);
}

#[test]
fn trim_removes_unicode_whitespace() {
    assert_eq!(trim("  hello world \n"), "hello world");
    assert_eq!(trim("\u{00a0}\u{3000}caf\u{e9}\u{2003}"), "caf\u{e9}");
    assert_eq!(trim(" \t "), "");
    assert_eq!(trim(""), "");
    assert_eq!(trim("x"), "x");
}

#[test]
fn apostrophe_detection() {
    assert!(starts_with_apostrophe("'s"));
    assert!(!starts_with_apostrophe("s'"));
    assert!(!starts_with_apostrophe(""));
}

#[test]
fn offset_is_applied_in_full_range() {
    let mut manager: TranscriptManager<f32> = TranscriptManager::builder()
        .with_manager_offset(u64::MAX)
        .build();
    let mut w = raw("late", 0.0, 0.0);
    w.start_us = u64::MAX;
    w.end_us = u64::MAX;
    let diff = manager.append(transcript(true, 0, vec![w]));
    let expected = u64::MAX as u128 * 1000 + u64::MAX as u128;
    assert_eq!(diff.final_words[&0][0].start_us, expected);
}

#[test]
fn whitespace_is_the_listed_set() {
    let listed = |code: u32| {
        (0x0009..=0x000D).contains(&code)
            || (0x2000..=0x200A).contains(&code)
            || [0x0020, 0x0085, 0x00A0, 0x1680, 0x2028, 0x2029, 0x202F, 0x205F, 0x3000]
                .contains(&code)
    };
    let mut text = String::new();
    for code in 0..=0x10FFFFu32 {
        if let Some(c) = char::from_u32(code) {
            text.clear();
            text.push(c);
            assert_eq!(trim(&text).is_empty(), listed(code), "U+{:04X}", code);
        }
    }
}
