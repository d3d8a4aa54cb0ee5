use vtt_core::whisper::config::WhisperConfig;
use vtt_core::whisper::context::{
    assemble_segments, resampled_len, samples_finite, validate_audio, validate_samples, Segment,
};
use vtt_core::whisper::downloader::{checksums_agree, verify_checksum, ModelDownloadConfig};
use vtt_core::whisper::gpu::{
    detect_gpu, get_gpu_info, get_gpu_message, is_gpu_available, try_detect_cuda, GpuBackend,
    GpuDetection,
};
use vtt_core::text::decimal_text;
use vtt_core::whisper::language::{
    display_name, languages_report, supported_codes, supported_languages, Language, AUTO_DETECT,
};
use vtt_core::whisper::memory::{idle_after, unload_due, MemoryStats, MemoryTracker};
use vtt_core::whisper::{Transcription, WhisperError};

#[test]
fn test_whisper_config_default() {
    let config = WhisperConfig::default();
    assert_eq!(config.required_sample_rate, 16000);
    assert_eq!(config.model_path, "models/ggml-base.bin");
    assert!(!config.translate);
}

#[test]
fn test_whisper_config_builder() {
    let config = WhisperConfig::default()
        .with_model_path("custom/model.bin")
        .with_language("en")
        .with_threads(8)
        .with_gpu(false)
        .with_translation(true);

    assert_eq!(config.model_path, "custom/model.bin");
    assert_eq!(config.language, Some("en".to_string()));
    assert_eq!(config.n_threads, 8);
    assert!(!config.use_gpu);
    assert!(config.translate);
}

#[test]
fn test_with_idle_timeout() {
    let config = WhisperConfig::default().with_idle_timeout(Some(60));

    assert_eq!(config.idle_timeout_secs, Some(60));
}

#[test]
fn test_with_max_sessions() {
    let config = WhisperConfig::default().with_max_sessions(20);

    assert_eq!(config.max_sessions, 20);
}

#[test]
fn test_threads_minimum() {
    let config = WhisperConfig::default().with_threads(0);

    assert_eq!(config.n_threads, 1); // Should be clamped to 1
}

#[test]
fn test_max_sessions_minimum() {
    let config = WhisperConfig::default().with_max_sessions(0);

    assert_eq!(config.max_sessions, 1); // Should be clamped to 1
}

#[test]
fn test_transcription_new() {
    let t = Transcription::new("Hello world".to_string(), 0, 1000);
    assert_eq!(t.text, "Hello world");
    assert_eq!(t.start_timestamp, 0);
    assert_eq!(t.end_timestamp, 1000);
    assert_eq!(t.duration_ms(), 1000);
}

#[test]
fn test_model_config() {
    let config = ModelDownloadConfig::for_model("base".to_string());
    assert_eq!(config.filename(), "ggml-base.bin");
    assert!(config.download_url().contains("ggml-base.bin"));
}

#[test]
fn test_config_with_checksum() {
    let config =
        ModelDownloadConfig::for_model("base".to_string()).with_checksum("abc123".to_string());
    assert_eq!(config.checksum, Some("abc123".to_string()));
}

#[test]
fn test_gpu_detection_runs() {
    let detection = detect_gpu();
    assert!(detection.is_ok());
}

#[test]
fn test_gpu_info_cached() {
    let info1 = get_gpu_info();
    let info2 = get_gpu_info();

    match (&info1, &info2) {
        (None, None) => {}
        (Some(d1), Some(d2)) => {
            assert_eq!(d1.backend, d2.backend);
        }
        _ => panic!("GPU info should be consistent"),
    }
}

#[test]
fn test_is_gpu_available() {
    let _ = is_gpu_available();
}

#[test]
fn test_memory_tracker() {
    let mut tracker = MemoryTracker::new(500_000_000); // 500MB

    assert_eq!(tracker.ref_count(), 0);

    tracker.inc_ref();
    assert_eq!(tracker.ref_count(), 1);

    let stats = tracker.get_stats();
    assert_eq!(stats.active_sessions, 1);
    assert_eq!(stats.total_sessions, 1);

    tracker.dec_ref();
    assert_eq!(tracker.ref_count(), 0);

    let stats = tracker.get_stats();
    assert_eq!(stats.active_sessions, 0);
}

#[test]
fn test_idle_detection() {
    let mut tracker = MemoryTracker::new(100_000_000);

    // Should not unload when no timeout set
    assert!(!tracker.should_unload(None));

    // Should not unload with active refs even with timeout=0
    tracker.inc_ref();
    assert!(!tracker.should_unload(Some(0)));

    // After decrementing, should NOT be idle with timeout=0 while no time
    // has passed, because idleness requires more than the timeout
    tracker.dec_ref();
    assert_eq!(tracker.ref_count(), 0);
    assert!(
        !tracker.should_unload_after(Some(0), 0),
        "Should not be idle immediately after dec_ref"
    );

    // Wait 1 second to make it idle
    let waiting = std::time::Instant::now();
    while waiting.elapsed() < std::time::Duration::from_secs(1) {
        std::hint::spin_loop();
    }
    assert!(tracker.should_unload(Some(0)), "Should be idle after 1 second with timeout=0");

    // Should not unload with longer timeout
    assert!(!tracker.should_unload(Some(3600)), "Should not unload with 1 hour timeout");
}

#[test]
fn idle_after_any_time_beyond_the_timeout() {
    let mut tracker = MemoryTracker::new(1);
    tracker.inc_ref();
    // Referred to: never, however long ago the reference was taken.
    assert!(!tracker.should_unload_after(Some(0), 5_000_000_000));
    tracker.dec_ref();
    // No time has passed: not idle, the comparison is strict.
    assert!(!tracker.should_unload_after(Some(0), 0));
    // One nanosecond, one millisecond: idle.
    assert!(tracker.should_unload_after(Some(0), 1));
    assert!(tracker.should_unload_after(Some(0), 1_000_000));
    // Exactly the timeout is not more than the timeout.
    assert!(!tracker.should_unload_after(Some(5), 5_000_000_000));
    assert!(tracker.should_unload_after(Some(5), 5_000_000_001));
    assert!(tracker.should_unload_after(Some(5), 5_500_000_000));
    assert!(!tracker.should_unload_after(None, u128::MAX));
    // By the clock, some time has passed since the reference was taken.
    let waiting = std::time::Instant::now();
    while waiting.elapsed() < std::time::Duration::from_millis(2) {
        std::hint::spin_loop();
    }
    assert!(tracker.should_unload(Some(0)));
    assert!(tracker.get_stats().is_idle(0));
    assert!(!tracker.should_unload(Some(3600)));
    assert!(!tracker.should_unload(None));
}

#[test]
fn unloading_is_decided_from_count_timeout_and_elapsed_time() {
    // No timeout: never.
    assert!(!unload_due(0, None, u128::MAX));
    // Referred to: never.
    assert!(!unload_due(1, Some(0), 100));
    assert!(!unload_due(usize::MAX, Some(0), 100));
    // The comparison is strict, at the resolution of the clock.
    assert!(!unload_due(0, Some(0), 0));
    assert!(unload_due(0, Some(0), 1));
    assert!(!unload_due(0, Some(3600), 3_600_000_000_000));
    assert!(unload_due(0, Some(3600), 3_600_000_000_001));
    assert!(!idle_after(5_000_000_000, 5));
    assert!(idle_after(5_500_000_000, 5));
    assert!(!idle_after(4_999_999_999, 5));
    assert!(!idle_after(0, 0));
    assert!(idle_after(1, 0));
    assert!(!idle_after(u64::MAX as u128 * 1_000_000_000, u64::MAX));
    assert!(idle_after(u128::MAX, u64::MAX));
}

#[test]
fn activity_is_taken_at_the_given_instant() {
    let mut tracker = MemoryTracker::new(9);
    let loaded = tracker.get_stats().last_activity;
    let first = std::time::Instant::now();
    tracker.inc_ref_at(first);
    assert_eq!(tracker.get_stats().last_activity, first);
    assert!(first >= loaded);
    assert_eq!(tracker.ref_count(), 1);
    assert_eq!(tracker.get_stats().active_sessions, 1);
    assert_eq!(tracker.get_stats().total_sessions, 1);
    let second = std::time::Instant::now();
    tracker.update_activity_at(second);
    assert_eq!(tracker.get_stats().last_activity, second);
    assert_eq!(tracker.ref_count(), 1);
    tracker.inc_ref();
    assert!(tracker.get_stats().last_activity >= second);
    let stats = MemoryStats::loaded_at(3, first);
    assert_eq!(stats.last_activity, first);
    assert_eq!(stats.total_bytes, 3);
    assert_eq!(stats.peak_bytes, 3);
}

#[test]
fn release_does_not_refresh_the_time_of_the_last_activity() {
    let mut tracker = MemoryTracker::new(1);
    tracker.inc_ref();
    let taken = tracker.get_stats().last_activity;
    tracker.dec_ref();
    assert_eq!(tracker.get_stats().last_activity, taken);
    tracker.update_activity();
    assert!(tracker.get_stats().last_activity >= taken);
    assert_eq!(tracker.ref_count(), 0);
    assert_eq!(tracker.get_stats().total_sessions, 1);
}

#[test]
fn release_without_a_reference_wraps_the_count() {
    let mut tracker = MemoryTracker::new(1);
    tracker.dec_ref();
    assert_eq!(tracker.ref_count(), usize::MAX);
    assert_eq!(tracker.get_stats().active_sessions, 0);
    assert!(!tracker.should_unload(Some(0)));
    tracker.inc_ref();
    assert_eq!(tracker.ref_count(), 0);
    assert_eq!(tracker.get_stats().active_sessions, 1);
    assert_eq!(tracker.get_stats().total_sessions, 1);
}

#[test]
fn sessions_are_counted() {
    let mut tracker = MemoryTracker::new(42);
    for _ in 0..3 {
        tracker.inc_ref();
    }
    tracker.dec_ref();
    let stats = tracker.get_stats();
    assert_eq!(tracker.ref_count(), 2);
    assert_eq!(stats.active_sessions, 2);
    assert_eq!(stats.total_sessions, 3);
    assert_eq!(stats.total_bytes, 42);
    assert_eq!(stats.peak_bytes, 42);
    let fresh = MemoryStats::new(7);
    assert_eq!(fresh.total_bytes, 7);
    assert_eq!(fresh.peak_bytes, 7);
    assert_eq!(fresh.active_sessions, 0);
    assert_eq!(fresh.total_sessions, 0);
    assert!(!fresh.is_idle(3600));
}

#[test]
fn default_configuration_follows_the_machine() {
    let config = WhisperConfig::for_machine(6, true);
    assert_eq!(config.n_threads, 6);
    assert!(config.use_gpu);
    assert_eq!(config.model_path, "models/ggml-base.bin");
    assert_eq!(config.required_sample_rate, 16000);
    assert_eq!(config.language, None);
    assert_eq!(config.n_max_context, 0);
    assert_eq!(config.n_max_text_tokens, 0);
    assert_eq!(config.offset_ms, 0);
    assert_eq!(config.duration_ms, 0);
    assert_eq!(config.idle_timeout_secs, None);
    assert_eq!(config.max_sessions, 4);
    assert_eq!(WhisperConfig::for_machine(usize::MAX, false).n_threads, i32::MAX);
    let here = WhisperConfig::default();
    assert_eq!(here.use_gpu, is_gpu_available());
    assert_eq!(here.with_threads(-4).n_threads, 1);
}

#[test]
fn gpu_detection_without_cuda() {
    let detection = detect_gpu().unwrap();
    assert_eq!(detection.backend, GpuBackend::Cpu);
    assert!(!detection.has_gpu());
    assert_eq!(detection.device_index(), 0);
    assert!(detection.devices.is_empty());
    assert_eq!(detection.recommended_device, None);
    assert_eq!(
        detection.message,
        "No GPU detected. Whisper will run on CPU. For GPU acceleration, rebuild with: cargo build --features cuda"
    );
    assert_eq!(get_gpu_message(), detection.message);
    assert!(!is_gpu_available());
    assert_eq!(try_detect_cuda(false).unwrap_err(), "CUDA feature not enabled");
}

#[test]
fn gpu_detection_with_cuda() {
    let detection = try_detect_cuda(true).unwrap();
    assert_eq!(detection.backend, GpuBackend::Cuda);
    assert!(detection.has_gpu());
    assert_eq!(detection.device_index(), 0);
    assert_eq!(detection.devices.len(), 1);
    assert_eq!(detection.devices[0].backend, GpuBackend::Cuda);
    assert_eq!(
        detection.devices[0].device_name,
        Some("CUDA Device (detected by whisper-rs)".to_string())
    );
    assert_eq!(detection.devices[0].device_index, 0);
    assert_eq!(detection.devices[0].vram_mb, None);
    assert_eq!(detection.message, "CUDA GPU detected and available for Whisper acceleration");
    let chosen = GpuDetection { recommended_device: Some(3), ..detection };
    assert_eq!(chosen.device_index(), 3);
    let cpu = GpuDetection::cpu_only("none".to_string());
    assert_eq!(cpu.message, "none");
    assert!(!cpu.has_gpu());
}

#[test]
fn languages_are_found_by_code() {
    assert_eq!(Language::from_code("en"), Some(Language::new("en", "English")));
    assert_eq!(Language::from_code("hi"), Some(Language::new("hi", "Hindi")));
    assert_eq!(Language::from_code("ja").unwrap().name, "Japanese");
    assert_eq!(Language::from_code("xx"), None);
    assert_eq!(Language::from_code("auto"), None);
    assert_eq!(Language::from_code("EN"), None);
    assert_eq!(Language::from_code(""), None);
    assert!(Language::is_valid("de"));
    assert!(Language::is_valid("auto"));
    assert!(!Language::is_valid("klingon"));
    assert_eq!(AUTO_DETECT, "auto");
}

#[test]
fn supported_codes_are_listed_in_order() {
    assert_eq!(
        supported_codes(),
        vec!["en", "es", "fr", "de", "it", "pt", "zh", "ja", "ko", "ru", "ar", "hi"]
    );
    let languages = supported_languages();
    assert_eq!(languages.len(), 12);
    assert_eq!(languages[2], Language::new("fr", "French"));
    assert_eq!(languages[5].name, "Portuguese");
}

#[test]
fn display_names() {
    assert_eq!(display_name("auto"), "Auto-detect");
    assert_eq!(display_name("es"), "Spanish");
    assert_eq!(display_name("ko"), "Korean");
    assert_eq!(display_name("tlh"), "Unknown (tlh)");
    assert_eq!(display_name(""), "Unknown ()");
}

#[test]
fn model_file_and_address() {
    let config = ModelDownloadConfig::for_model("small.en".to_string());
    assert_eq!(config.filename(), "ggml-small.en.bin");
    assert_eq!(
        config.download_url(),
        "https://huggingface.co/ggerganov/whisper.cpp/resolve/main/ggml-small.en.bin"
    );
    assert_eq!(config.target_path(), std::path::PathBuf::from("models").join("ggml-small.en.bin"));
    assert_eq!(config.checksum, None);
    let default = ModelDownloadConfig::default();
    assert_eq!(default.model_name, "base");
    assert_eq!(default.model_dir, std::path::PathBuf::from("models"));
    assert_eq!(default.checksum, None);
}

#[test]
fn checksum_of_downloaded_bytes() {
    let digest = "ba7816bf8f01cfea414140de5dae2223b00361a396177a9cb410ff61f20015ad";
    assert!(verify_checksum(b"abc", digest).is_ok());
    assert!(verify_checksum(b"abc", &digest.to_uppercase()).is_ok());
    let empty = "e3b0c44298fc1c149afbf4c8996fb92427ae41e4649b934ca495991b7852b855";
    assert!(verify_checksum(b"", empty).is_ok());
    assert_eq!(
        verify_checksum(b"abd", digest).unwrap_err(),
        "Checksum mismatch: expected ba7816bf8f01cfea414140de5dae2223b00361a396177a9cb410ff61f20015ad, got a52d159f262b2c6ddb724a61840befc36eb30c88877a4030b65cbe86298449c9"
    );
    assert_eq!(
        verify_checksum(b"abc", "ABC").unwrap_err(),
        format!("Checksum mismatch: expected ABC, got {}", digest)
    );
}

#[test]
fn checksums_are_compared_in_lower_case() {
    assert!(checksums_agree("ab12", "ab12", "ab12", "AB12").is_ok());
    assert_eq!(
        checksums_agree("ab12", "ab13", "ab12", "AB13").unwrap_err(),
        "Checksum mismatch: expected AB13, got ab12"
    );
}

#[test]
fn audio_is_checked_before_inference() {
    assert!(validate_audio(100, true).is_ok());
    assert!(validate_audio(16000, true).is_ok());
    let text = |result: Result<(), WhisperError>| result.unwrap_err().to_string();
    assert_eq!(text(validate_audio(0, true)), "Invalid audio data: Audio data is empty");
    assert_eq!(text(validate_audio(0, false)), "Invalid audio data: Audio data is empty");
    assert_eq!(text(validate_audio(99, true)), "Invalid audio data: Audio data too short");
    assert_eq!(text(validate_audio(99, false)), "Invalid audio data: Audio data too short");
    assert_eq!(
        text(validate_audio(100, false)),
        "Invalid audio data: Audio data contains NaN or infinite values"
    );
}

#[test]
fn resampled_length_is_rounded_up() {
    assert_eq!(resampled_len(48000, 48000, 16000), 16000);
    assert_eq!(resampled_len(48001, 48000, 16000), 16001);
    assert_eq!(resampled_len(48002, 48000, 16000), 16001);
    assert_eq!(resampled_len(48003, 48000, 16000), 16001);
    assert_eq!(resampled_len(48004, 48000, 16000), 16002);
    assert_eq!(resampled_len(44100, 44100, 16000), 16000);
    assert_eq!(resampled_len(1000, 44100, 16000), 363);
    assert_eq!(resampled_len(8000, 8000, 16000), 16000);
    assert_eq!(resampled_len(3, 8000, 16000), 6);
    assert_eq!(resampled_len(777, 16000, 16000), 777);
    assert_eq!(resampled_len(0, 48000, 16000), 0);
    assert_eq!(resampled_len(100, 48000, 0), 0);
    assert_eq!(resampled_len(usize::MAX, 1, u32::MAX), usize::MAX);
}

fn segment(text: &str, start: i64, end: i64) -> Segment {
    Segment { text: text.to_string(), start_timestamp: start, end_timestamp: end }
}

#[test]
fn segments_are_put_together() {
    let segments =
        vec![segment(" Hello", 0, 120), segment(" world. ", 120, 260), segment("Bye", 300, 410)];
    let whole = assemble_segments(&segments);
    assert_eq!(whole.text, "Hello world. Bye");
    assert_eq!(whole.start_timestamp, 0);
    assert_eq!(whole.end_timestamp, 410);

    let none = assemble_segments(&Vec::new());
    assert_eq!(none.text, "");
    assert_eq!(none.start_timestamp, 0);
    assert_eq!(none.end_timestamp, 0);
}

#[test]
fn blank_segments_add_no_space() {
    let segments = vec![
        segment("   ", 5, 10),
        segment("\n", 10, 20),
        segment(" first ", 20, 30),
        segment("", 30, 40),
        segment("  \t ", 40, 50),
        segment("second", 50, 60),
        segment(" ", 60, 70),
    ];
    let whole = assemble_segments(&segments);
    assert_eq!(whole.text, "first second");
    // The span starts with the last segment before which no text was gathered.
    assert_eq!(whole.start_timestamp, 20);
    assert_eq!(whole.end_timestamp, 70);
}

#[test]
fn each_whisper_error_has_its_text() {
    let path = std::path::PathBuf::from("models/ggml-base.bin");
    assert_eq!(
        WhisperError::ModelLoadError { path: path.clone(), reason: "bad magic".to_string() }
            .to_string(),
        "Failed to load model from models/ggml-base.bin: bad magic"
    );
    assert_eq!(
        WhisperError::ModelNotFound(path).to_string(),
        "Model file not found: models/ggml-base.bin"
    );
    assert_eq!(WhisperError::InvalidAudio("a".to_string()).to_string(), "Invalid audio data: a");
    assert_eq!(
        WhisperError::TranscriptionFailed("b".to_string()).to_string(),
        "Transcription failed: b"
    );
    assert_eq!(WhisperError::ContextError("c".to_string()).to_string(), "Whisper context error: c");
    assert_eq!(
        WhisperError::InvalidParameter("d".to_string()).to_string(),
        "Invalid parameter: d"
    );
}

fn is_white_space(c: char) -> bool {
    matches!(
        c as u32,
        0x09..=0x0D
            | 0x20
            | 0x85
            | 0xA0
            | 0x1680
            | 0x2000..=0x200A
            | 0x2028
            | 0x2029
            | 0x202F
            | 0x205F
            | 0x3000
    )
}

#[test]
fn white_space_around_a_text_is_trimmed() {
    for code in 0..=0x10FFFFu32 {
        let Some(c) = char::from_u32(code) else {
            continue;
        };
        let text = format!("{c}{c}a b{c}");
        let whole = assemble_segments(&vec![segment(&text, 0, 1)]);
        if is_white_space(c) {
            assert_eq!(whole.text, "a b", "U+{:04X} is white space", code);
        } else {
            assert_eq!(whole.text, text, "U+{:04X} is no white space", code);
        }
    }
    let whole = assemble_segments(&vec![segment("\u{2003}\t x \u{3000}\n", 0, 1)]);
    assert_eq!(whole.text, "x");
}

#[test]
fn numbers_are_written_in_decimal_digits() {
    for n in [0usize, 1, 9, 10, 11, 13, 99, 100, 101, 1234567890, usize::MAX - 1, usize::MAX] {
        assert_eq!(decimal_text(n), n.to_string());
    }
}

#[test]
fn languages_are_reported() {
    let mut lines = vec!["Supported Languages:".to_string()];
    lines.push("  auto - Auto-detect language".to_string());
    for language in supported_languages() {
        lines.push(format!("  {} - {}", language.code, language.name));
    }
    lines.push(String::new());
    lines.push("Total: 13 languages".to_string());
    assert_eq!(languages_report(), lines.join("\n"));
}

fn bits(samples: &[f32]) -> Vec<u32> {
    samples.iter().map(|sample| sample.to_bits()).collect()
}

#[test]
fn samples_that_are_not_finite_are_found() {
    let values = [
        0.0,
        -0.0,
        1.0,
        -1.0,
        f32::MIN_POSITIVE,
        1.0e-40,
        f32::MAX,
        f32::MIN,
        f32::INFINITY,
        f32::NEG_INFINITY,
        f32::NAN,
        -f32::NAN,
    ];
    for value in values {
        assert_eq!(samples_finite(&bits(&[0.5, value, -0.5])), value.is_finite(), "{}", value);
    }
    assert!(samples_finite(&[]));

    let mut audio = vec![0.25f32; 100];
    assert!(validate_samples(&bits(&audio)).is_ok());
    audio[99] = f32::NAN;
    assert_eq!(
        validate_samples(&bits(&audio)).unwrap_err().to_string(),
        "Invalid audio data: Audio data contains NaN or infinite values"
    );
    audio[99] = f32::INFINITY;
    assert!(validate_samples(&bits(&audio)).is_err());
    // Too short goes before not finite.
    assert_eq!(
        validate_samples(&bits(&audio[1..])).unwrap_err().to_string(),
        "Invalid audio data: Audio data too short"
    );
    assert_eq!(
        validate_samples(&[]).unwrap_err().to_string(),
        "Invalid audio data: Audio data is empty"
    );
}
