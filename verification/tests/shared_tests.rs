use std::sync::Arc;
use vtt_core::incremental::{SharedTranscriber, TranscriberConfig};
use vtt_core::whisper::{SharedTracker, Transcription, WhisperError};
use vtt_core::window::shared::SharedWindow;
use vtt_core::window::{Seconds, WindowConfig, WindowError};

fn assert_shareable<T: Send + Sync>(_: &T) {}

fn heard(text: &str) -> Result<Transcription, WhisperError> {
    Ok(Transcription::new(text.to_string(), 0, 1000))
}

fn small_config() -> TranscriberConfig {
    TranscriberConfig {
        transcription_interval_ms: 500,
        min_text_length: 3,
        window_duration_secs: Seconds::from_millis(1000),
        sample_rate: 2000,
    }
}

#[test]
fn shared_window_can_be_shared() {
    let window: SharedWindow<f32> =
        SharedWindow::with_config(WindowConfig::new(Seconds::from_millis(100), 100)).unwrap();
    assert_shareable(&window);
    let reader = Arc::new(window);
    let writer = Arc::clone(&reader);
    let mut dropped = 0;
    for n in 0..100 {
        dropped += writer.push(&[n as f32, n as f32 + 0.5]);
        let seen = reader.get_all();
        assert!(seen.len() <= 10);
        assert!(seen.windows(2).all(|pair| pair[0] < pair[1]));
    }
    assert_eq!(dropped, 190);
    assert_eq!(reader.get_all(), vec![95.0, 95.5, 96.0, 96.5, 97.0, 97.5, 98.0, 98.5, 99.0, 99.5]);
}

#[test]
fn shared_window_does_what_the_window_does() {
    let window: SharedWindow<f32> =
        SharedWindow::with_config(WindowConfig::new(Seconds::from_millis(1000), 100)).unwrap();
    assert_eq!(window.config(), WindowConfig::new(Seconds::from_millis(1000), 100));
    let samples: Vec<f32> = (0..150).map(|i| i as f32).collect();
    assert_eq!(window.push(&samples), 50);
    let last = window.get_last_seconds(Seconds::from_millis(500)).unwrap();
    assert_eq!(last.len(), 50);
    assert_eq!(last[0], 100.0);
    assert_eq!(last[49], 149.0);
    assert!(matches!(
        window.get_last_seconds(Seconds::from_millis(2000)),
        Err(WindowError::BufferOverflow { dropped: 0 })
    ));
    assert_eq!(window.get_last_n(2), vec![148.0, 149.0]);
    assert_eq!(window.get_last_n(1000).len(), 100);
    assert_eq!(window.duration_secs(), Seconds::from_millis(1000));
    window.clear();
    assert!(window.get_all().is_empty());
    assert_eq!(window.duration_secs(), Seconds::from_millis(0));

    let default: SharedWindow<f32> = SharedWindow::new();
    assert_eq!(default.config(), WindowConfig::default());
    let refused: Result<SharedWindow<f32>, WindowError> =
        SharedWindow::with_config(WindowConfig::new(Seconds::from_millis(0), 100));
    assert!(matches!(refused, Err(WindowError::ZeroCapacity)));
}

#[test]
fn shared_transcriber_runs_passes() {
    let transcriber: SharedTranscriber<f32> = SharedTranscriber::new(small_config()).unwrap();
    assert_shareable(&transcriber);
    assert_eq!(transcriber.config(), small_config());
    assert_eq!(transcriber.push_audio(&vec![0.5; 1500]), 0);
    let mut calls = 0;
    assert!(transcriber
        .transcribe_current(|_, _| {
            calls += 1;
            heard("too early")
        }, 2001)
        .is_none());
    assert_eq!(calls, 0);
    assert_eq!(transcriber.push_audio(&vec![0.25; 1000]), 500);
    assert_eq!(transcriber.buffer_duration_secs(), Seconds::from_millis(1000));

    let mut seen_len = 0;
    let mut seen_rate = 0;
    let first = transcriber
        .transcribe_current(|samples, rate| {
            seen_len = samples.len();
            seen_rate = rate;
            // The window takes audio while the pass is under way.
            assert_eq!(transcriber.push_audio(&[0.75]), 1);
            heard(" hello world ")
        }, 2002)
        .unwrap();
    assert_eq!(seen_len, 2000);
    assert_eq!(seen_rate, 2000);
    assert_eq!(first.text, "hello world");
    assert_eq!(first.sample_count, 2000);
    assert!(!first.is_final);
    assert_eq!(first.timestamp, 2002);

    assert!(transcriber.transcribe_current(|_, _| heard("hello"), 2003).is_none());
    assert!(transcriber.transcribe_current(|_, _| heard("no"), 2004).is_none());
    assert!(transcriber
        .transcribe_current(|_, _| Err(WhisperError::TranscriptionFailed("busy".to_string())), 2005)
        .is_none());
    assert_eq!(transcriber.transcribe_current(|_, _| heard("next"), 2006).unwrap().text, "next");

    transcriber.clear();
    assert_eq!(transcriber.buffer_duration_secs(), Seconds::from_millis(0));
    assert!(transcriber.transcribe_current(|_, _| heard("hello world"), 2007).is_none());
    transcriber.push_audio(&vec![0.5; 1600]);
    assert_eq!(
        transcriber.transcribe_current(|_, _| heard("hello world"), 2008).unwrap().text,
        "hello world"
    );
}

#[test]
fn shared_transcriber_defaults_and_refusal() {
    let transcriber: SharedTranscriber<f32> = SharedTranscriber::with_defaults();
    assert_eq!(transcriber.config(), TranscriberConfig::default());
    let config = TranscriberConfig { sample_rate: 0, ..TranscriberConfig::default() };
    let refused: Result<SharedTranscriber<f32>, WindowError> = SharedTranscriber::new(config);
    assert!(matches!(refused, Err(WindowError::ZeroCapacity)));
}

#[test]
fn cloning_a_tracker_handle_counts_a_reference() {
    let tracker = SharedTracker::new(500_000_000);
    assert_shareable(&tracker);
    assert_eq!(tracker.ref_count(), 0);

    tracker.inc_ref();
    assert_eq!(tracker.ref_count(), 1);
    let stats = tracker.get_stats();
    assert_eq!(stats.active_sessions, 1);
    assert_eq!(stats.total_sessions, 1);
    assert_eq!(stats.total_bytes, 500_000_000);
    assert_eq!(stats.peak_bytes, 500_000_000);

    let second = tracker.clone();
    // Both handles are handles to the one tracker.
    assert_eq!(tracker.ref_count(), 2);
    assert_eq!(second.ref_count(), 2);
    assert_eq!(second.get_stats().total_sessions, 2);
    assert!(!tracker.should_unload(Some(0)));

    second.dec_ref();
    tracker.dec_ref();
    assert_eq!(second.ref_count(), 0);
    assert_eq!(tracker.get_stats().active_sessions, 0);
    assert_eq!(tracker.get_stats().total_sessions, 2);
    assert!(!tracker.should_unload(None));
    assert!(!tracker.should_unload(Some(3600)));
    assert!(!tracker.should_unload(Some(u64::MAX)));
    assert_eq!(second.get_stats().total_bytes, 500_000_000);
    let before = tracker.get_stats().last_activity;
    tracker.update_activity();
    assert!(tracker.get_stats().last_activity >= before);
}
