use vtt_core::incremental::{is_duplicate, IncrementalTranscriber, TranscriberConfig};
use vtt_core::whisper::{Transcription, WhisperError};
use vtt_core::window::{Seconds, WindowError};

fn heard(text: &str) -> Result<Transcription, WhisperError> {
    Ok(Transcription::new(text.to_string(), 0, 1000))
}

fn small_config() -> TranscriberConfig {
    TranscriberConfig {
        transcription_interval_ms: 500,
        min_text_length: 3,
        window_duration_secs: Seconds::from_millis(1000),
        sample_rate: 2000,
    }
}

#[test]
fn test_duplicate_detection() {
    assert!(is_duplicate("hello world", "hello", 80));
    assert!(is_duplicate("hello world test", "world test", 70));
    assert!(!is_duplicate("hello", "world", 80));
}

#[test]
fn empty_text_is_never_a_duplicate() {
    assert!(!is_duplicate("", "", 80));
    assert!(!is_duplicate("", "hello", 80));
    assert!(!is_duplicate("hello", "", 80));
    assert!(!is_duplicate("", "hello", 0));
}

#[test]
fn shorter_text_inside_the_previous_one_is_a_duplicate() {
    assert!(is_duplicate("the quick brown fox", "quick brown", 80));
    assert!(is_duplicate("the quick brown fox", "fox", 100));
    assert!(is_duplicate("the quick brown fox", "t", 100));
    assert!(!is_duplicate("the quick brown fox", "quick fox", 80));
    // Equal length is not shorter: the overlap rule decides.
    assert!(is_duplicate("same words", "same words", 80));
    assert!(!is_duplicate("same words", "same wordz", 80));
}

#[test]
fn overlap_of_suffix_and_prefix_is_a_duplicate() {
    // The whole previous text starts the current one.
    assert!(is_duplicate("hello", "hello world", 80));
    assert!(is_duplicate("hello", "hello world", 100));
    assert!(!is_duplicate("hello", "help me now", 80));
    // The current text is shorter and no part of the previous one.
    assert!(!is_duplicate("hello world", "world!", 10));
    // ceil(11 * 0.8) = 9: an overlap of ten bytes is enough, one of eight is not.
    assert!(!is_duplicate("hello world", "ello worlx", 80));
    assert!(!is_duplicate("0123456789a", "3456789b", 80));
}

#[test]
fn threshold_is_rounded_up() {
    // With no overlap asked for, the texts must still overlap.
    assert!(!is_duplicate("abcd", "bcdx", 0));
    // All of the two bytes of the previous text are asked for.
    assert!(is_duplicate("ab", "abab", 100));
    // 101 hundredths of two bytes are 2.02 bytes: three are needed.
    assert!(!is_duplicate("ab", "abab", 101));
    assert!(!is_duplicate("abcde", "abcdefg", 200));
    // 1 hundredth of one hundred bytes is one byte.
    let long = "x".repeat(100);
    assert!(is_duplicate(&long, &"x".repeat(120), 1));
}

#[test]
fn texts_are_compared_as_bytes() {
    assert!(is_duplicate("grüße aus köln", "aus köln", 80));
    assert!(is_duplicate("日本語のテキスト", "テキスト", 80));
    // Cutting the previous text inside a character finds no overlap.
    assert!(!is_duplicate("aé", "éa", 50));
}

#[test]
fn transcriber_defaults() {
    let config = TranscriberConfig::default();
    assert_eq!(config.transcription_interval_ms, 500);
    assert_eq!(config.min_text_length, 3);
    assert_eq!(config.window_duration_secs, Seconds::from_millis(3000));
    assert_eq!(config.sample_rate, 16000);
    let transcriber: IncrementalTranscriber<f32> = IncrementalTranscriber::with_defaults();
    assert_eq!(transcriber.config(), config);
    assert_eq!(transcriber.buffer_duration_secs(), Seconds::from_millis(0));
    assert!(transcriber.pending_audio().is_none());
}

#[test]
fn transcriber_of_an_empty_window_is_refused() {
    let config = TranscriberConfig { sample_rate: 0, ..TranscriberConfig::default() };
    let result: Result<IncrementalTranscriber<f32>, WindowError> =
        IncrementalTranscriber::new(config);
    assert!(matches!(result, Err(WindowError::ZeroCapacity)));
}

#[test]
fn too_little_audio_is_not_transcribed() {
    let mut transcriber: IncrementalTranscriber<f32> =
        IncrementalTranscriber::new(small_config()).unwrap();
    assert_eq!(transcriber.push_audio(&vec![0.25; 1599]), 0);
    let mut calls = 0;
    let result = transcriber.transcribe_current(|_samples, _rate| {
        calls += 1;
        heard("never asked for")
    }, 1001);
    assert!(result.is_none());
    assert_eq!(calls, 0);
    assert!(transcriber.pending_audio().is_none());
}

#[test]
fn pass_hands_the_window_and_the_rate_to_the_function() {
    let mut transcriber: IncrementalTranscriber<f32> =
        IncrementalTranscriber::new(small_config()).unwrap();
    let samples: Vec<f32> = (0..2500).map(|i| i as f32).collect();
    assert_eq!(transcriber.push_audio(&samples), 500);
    assert_eq!(transcriber.buffer_duration_secs(), Seconds::from_millis(1000));
    let mut seen: Vec<f32> = Vec::new();
    let mut seen_rate = 0;
    let result = transcriber
        .transcribe_current(|samples, rate| {
            seen = samples.to_vec();
            seen_rate = rate;
            heard("  hello world \n")
        }, 1002)
        .unwrap();
    assert_eq!(seen, samples[500..].to_vec());
    assert_eq!(seen_rate, 2000);
    assert_eq!(result.text, "hello world");
    assert!(!result.is_final);
    assert_eq!(result.sample_count, 2000);
    assert_eq!(result.timestamp, 1002);
    // The window stays as it is.
    assert_eq!(transcriber.pending_audio().unwrap(), samples[500..].to_vec());
}

#[test]
fn repeated_and_short_texts_are_suppressed() {
    let mut transcriber: IncrementalTranscriber<f32> =
        IncrementalTranscriber::new(small_config()).unwrap();
    transcriber.push_audio(&vec![0.5; 1600]);

    let first = transcriber.transcribe_current(|_, _| heard("hello world"), 1003);
    assert_eq!(first.unwrap().text, "hello world");
    // A part of what was emitted.
    assert!(transcriber.transcribe_current(|_, _| heard(" hello "), 1004).is_none());
    // The same text again.
    assert!(transcriber.transcribe_current(|_, _| heard("hello world"), 1005).is_none());
    // What was emitted, and more.
    assert!(transcriber.transcribe_current(|_, _| heard("hello world again"), 1006).is_none());
    // Too short.
    assert!(transcriber.transcribe_current(|_, _| heard("  ok  "), 1007).is_none());
    // A failed pass.
    let failed = transcriber
        .transcribe_current(|_, _| Err(WhisperError::TranscriptionFailed("busy".to_string())), 1008);
    assert!(failed.is_none());
    // A new text is emitted and becomes the text emitted last.
    let second = transcriber.transcribe_current(|_, _| heard("something new"), 1009);
    assert_eq!(second.unwrap().text, "something new");
    assert!(transcriber.transcribe_current(|_, _| heard("new"), 1010).is_none());
    // The suppressed texts did not replace the text emitted last.
    let third = transcriber.transcribe_current(|_, _| heard("hello world"), 1011);
    assert_eq!(third.unwrap().text, "hello world");
}

#[test]
fn accept_takes_the_outcome_of_a_pass() {
    let mut transcriber: IncrementalTranscriber<f32> =
        IncrementalTranscriber::new(small_config()).unwrap();
    let result = transcriber.accept(heard("\t first words "), 1700, 42).unwrap();
    assert_eq!(result.text, "first words");
    assert_eq!(result.sample_count, 1700);
    assert_eq!(result.timestamp, 42);
    assert!(!result.is_final);
    assert!(transcriber.accept(heard("first"), 1700, 43).is_none());
    assert!(transcriber.accept(heard("ab"), 1700, 44).is_none());
    assert!(transcriber
        .accept(Err(WhisperError::InvalidAudio("bad".to_string())), 1700, 45)
        .is_none());
    assert_eq!(transcriber.accept(heard("abc"), 1700, 46).unwrap().text, "abc");
}

#[test]
fn minimum_text_length_is_counted_in_bytes() {
    let config = TranscriberConfig { min_text_length: 4, ..small_config() };
    let mut transcriber: IncrementalTranscriber<f32> = IncrementalTranscriber::new(config).unwrap();
    // Three characters, four bytes.
    assert_eq!(transcriber.accept(heard("aéb"), 1600, 1).unwrap().text, "aéb");
    assert!(transcriber.accept(heard("xyz"), 1600, 2).is_none());
}

#[test]
fn clear_starts_a_fresh_utterance() {
    let mut transcriber: IncrementalTranscriber<f32> =
        IncrementalTranscriber::new(small_config()).unwrap();
    transcriber.push_audio(&vec![0.5; 1800]);
    assert!(transcriber.transcribe_current(|_, _| heard("hello world"), 1012).is_some());
    transcriber.clear();
    assert!(transcriber.pending_audio().is_none());
    assert_eq!(transcriber.buffer_duration_secs(), Seconds::from_millis(0));
    transcriber.push_audio(&vec![0.5; 1600]);
    // The text emitted before the clearing no longer suppresses anything.
    let again = transcriber.transcribe_current(|_, _| heard("hello world"), 1013);
    assert_eq!(again.unwrap().text, "hello world");
}
