use uuid::Uuid;
use vtt_core::audio::AudioDevice;
use vtt_core::level::Level;
use vtt_core::mcp::params::{
    ConfigureAudioParams, GetLastTranscriptionParams, StopListeningParams, TranscriptionResult,
    VadConfigInfo,
};
use vtt_core::mcp::server::{
    check_clip, check_language, missing_file_error, parse_resource_uri, resolve_config,
    resolve_config_for, EnvSettings, SessionState, SessionStatus, HISTORY_LIMIT,
};
use vtt_core::mcp::{McpError, McpErrorCode, ToMcpError, VttError, VttMcpServer};
use vtt_core::whisper::{Transcription, WhisperConfig, WhisperError};

fn no_env() -> EnvSettings {
    EnvSettings { model: None, threads: None, use_gpu: None }
}

fn config() -> WhisperConfig {
    WhisperConfig::for_machine(2, false)
}

fn level(value: f32) -> Level {
    Level::from_bits(value.to_bits())
}

fn devices(names: &[&str]) -> Vec<AudioDevice> {
    names.iter().map(|name| AudioDevice { name: name.to_string(), is_default: false }).collect()
}

fn stop(id: Uuid, transcribe: Option<bool>) -> StopListeningParams {
    StopListeningParams { session_id: id.to_string(), transcribe }
}

fn params_message(error: VttError) -> String {
    match error {
        VttError::InvalidParams(message) => message,
        other => panic!("not an error of invalid parameters: {}", other.to_string()),
    }
}

#[test]
fn server_test_server_creation() {
    let server = VttMcpServer::new();
    assert_eq!(server.session_count(), 0);
}

#[test]
fn integration_tests_test_server_creation() {
    let _server = VttMcpServer::new();
    // Server should initialize without errors
    assert!(true);
}

#[test]
fn test_server_default() {
    let _server = VttMcpServer::default();
    // Default construction should work
    assert!(true);
}

#[test]
fn test_multiple_servers() {
    let _server1 = VttMcpServer::new();
    let _server2 = VttMcpServer::default();
    // Multiple server instances should be independent
    assert!(true);
}

#[test]
fn test_subscriber_management() {
    let mut server = VttMcpServer::new();
    let session_id = Uuid::new_v4().as_u128();
    let client_id = "test-client".to_string();

    server.add_subscriber(session_id, client_id.clone(), 1).unwrap();
    let subscribers = server.get_subscribers(session_id);
    assert_eq!(subscribers.len(), 1);
    assert_eq!(subscribers[0].client_id, client_id);

    server.remove_subscriber(session_id, &client_id).unwrap();
    let subscribers = server.get_subscribers(session_id);
    assert_eq!(subscribers.len(), 0);
}

#[test]
fn test_session_status_display() {
    let session = SessionState {
        status: SessionStatus::Listening,
        start_time: 0,
        config: WhisperConfig::default(),
        transcription: None,
        transcription_timestamp: None,
        error: None,
    };
    assert_eq!(session.status_display(), "listening");
}

#[test]
fn test_error_conversion() {
    let err = VttError::invalid_params("test error");
    let mcp_err: McpError = err.into();
    assert_eq!(mcp_err.code, McpErrorCode::InvalidParams);
}

#[test]
fn each_status_has_its_name() {
    let named = |status: SessionStatus| {
        SessionState {
            status,
            start_time: 0,
            config: config(),
            transcription: None,
            transcription_timestamp: None,
            error: None,
        }
        .status_display()
    };
    assert_eq!(named(SessionStatus::Stopped), "stopped");
    assert_eq!(named(SessionStatus::Transcribed), "transcribed");
    assert_eq!(named(SessionStatus::Error), "error");
}

#[test]
fn errors_become_protocol_errors() {
    let not_found: McpError = VttError::device_not_found("mic").into();
    assert_eq!(not_found.code, McpErrorCode::InvalidRequest);
    assert_eq!(not_found.message, "Device not found: mic");
    let internal: McpError = VttError::internal("oops").into();
    assert_eq!(internal.code, McpErrorCode::InternalError);
    assert_eq!(internal.message, "Internal error: oops");
    let model: McpError = VttError::Model("no file".to_string()).into();
    assert_eq!(model.code, McpErrorCode::InternalError);
    assert_eq!(model.message, "Model error: no file");

    let plain = VttError::invalid_params("bad").into_mcp_error();
    assert_eq!(plain.code, McpErrorCode::InternalError);
    assert_eq!(plain.message, "Invalid parameters: bad");
    let in_context = VttError::Session("gone".to_string()).with_context("while stopping");
    assert_eq!(in_context.code, McpErrorCode::InternalError);
    assert_eq!(in_context.message, "while stopping: Session error: gone");
}

#[test]
fn each_server_error_has_its_text() {
    assert_eq!(VttError::NoAudioData("empty".to_string()).to_string(), "No audio data: empty");
    let audio: VttError = vtt_core::audio::AudioError::StreamError("closed".to_string()).into();
    assert_eq!(audio.to_string(), "Audio error: Audio stream error: closed");
    let whisper: VttError = WhisperError::InvalidAudio("short".to_string()).into();
    assert_eq!(whisper.to_string(), "Transcription error: Invalid audio data: short");
    let file: VttError = hound::Error::Unsupported.into();
    assert!(matches!(file, VttError::AudioFile(_)));
    assert!(file.to_string().starts_with("Audio file error: "));
}

#[test]
fn subscribers_are_kept_in_order() {
    let mut server = VttMcpServer::new();
    let first = 7u128;
    let second = 8u128;
    server.add_subscriber(first, "a".to_string(), 10).unwrap();
    server.add_subscriber(second, "x".to_string(), 11).unwrap();
    server.add_subscriber(first, "b".to_string(), 12).unwrap();
    server.add_subscriber(first, "a".to_string(), 13).unwrap();
    server.add_subscriber(first, "c".to_string(), 14).unwrap();
    let clients = |server: &VttMcpServer, id: u128| -> Vec<(String, i64)> {
        server
            .get_subscribers(id)
            .into_iter()
            .map(|subscriber| (subscriber.client_id, subscriber.subscribed_at))
            .collect()
    };
    assert_eq!(
        clients(&server, first),
        vec![
            ("a".to_string(), 10),
            ("b".to_string(), 12),
            ("a".to_string(), 13),
            ("c".to_string(), 14)
        ]
    );
    // Every subscription of the client ends.
    server.remove_subscriber(first, "a").unwrap();
    assert_eq!(clients(&server, first), vec![("b".to_string(), 12), ("c".to_string(), 14)]);
    assert_eq!(clients(&server, second), vec![("x".to_string(), 11)]);
    server.remove_subscriber(first, "nobody").unwrap();
    assert_eq!(clients(&server, first).len(), 2);
    server.remove_subscriber(99, "a").unwrap();
    server.cleanup_subscribers(first);
    assert!(server.get_subscribers(first).is_empty());
    assert_eq!(clients(&server, second), vec![("x".to_string(), 11)]);
}

#[test]
fn history_keeps_the_latest_transcriptions() {
    let mut server = VttMcpServer::new();
    for n in 0..(HISTORY_LIMIT as u64 + 5) {
        let result = server.record_clip(n as u128, config(), format!("clip {}", n), n, n as i64);
        assert_eq!(result.text, format!("clip {}", n));
        assert_eq!(result.start_ms, 0);
        assert_eq!(result.end_ms, n);
        assert_eq!(result.confidence, None);
    }
    assert_eq!(server.history_len(), HISTORY_LIMIT);
    let last = server.get_last_transcription(&GetLastTranscriptionParams { session_id: None });
    let last = last.unwrap();
    assert_eq!(last.text, "clip 104");
    assert_eq!(last.session_id, Uuid::from_u128(104).to_string());
    assert_eq!(last.timestamp, 104);
    assert_eq!(last.end_ms, 104);
    assert_eq!(last.model_path, "models/ggml-base.bin");
}

#[test]
fn last_transcription_of_an_empty_history() {
    let server = VttMcpServer::new();
    let result = server.get_last_transcription(&GetLastTranscriptionParams { session_id: None });
    match result {
        Err(VttError::Internal(message)) => assert_eq!(message, "No transcriptions available"),
        _ => panic!("an internal error was expected"),
    }
}

#[test]
fn session_is_started_and_stopped() {
    let mut server = VttMcpServer::new();
    let id = Uuid::new_v4();
    let started =
        server.begin_session(id.as_u128(), config().with_language("de").with_gpu(true), 1_000);
    assert_eq!(started.session_id, id.to_string());
    assert_eq!(started.status, "listening");
    assert_eq!(started.start_time, 1_000);
    assert_eq!(started.model_path, "models/ggml-base.bin");
    assert_eq!(started.language, Some("de".to_string()));
    assert!(started.use_gpu);
    assert_eq!(server.session_count(), 1);
    let state = server.find_session_state(id.as_u128()).unwrap();
    assert_eq!(state.status, SessionStatus::Listening);
    assert!(state.transcription.is_none());

    server.add_subscriber(id.as_u128(), "client".to_string(), 1_100).unwrap();
    let stopped = server.stop_listening(&stop(id, None), 4_500).unwrap();
    assert_eq!(stopped.session_id, id.to_string());
    assert_eq!(stopped.status, "transcribed");
    assert_eq!(stopped.duration_ms, 3_500);
    assert_eq!(stopped.samples_captured, 0);
    assert_eq!(stopped.error, None);
    let transcription = stopped.transcription.unwrap();
    assert_eq!(transcription.text, "Placeholder transcription");
    assert_eq!(transcription.start_ms, 0);
    assert_eq!(transcription.end_ms, 3_500);
    assert_eq!(transcription.confidence, None);

    let state = server.find_session_state(id.as_u128()).unwrap();
    assert_eq!(state.status, SessionStatus::Transcribed);
    assert_eq!(state.status_display(), "transcribed");
    assert_eq!(state.transcription_timestamp, Some(4_500));
    assert_eq!(state.start_time, 1_000);
    assert!(server.get_subscribers(id.as_u128()).is_empty());
    assert_eq!(server.history_len(), 1);

    let last = server
        .get_last_transcription(&GetLastTranscriptionParams { session_id: Some(id.to_string()) })
        .unwrap();
    assert_eq!(last.text, "Placeholder transcription");
    assert_eq!(last.timestamp, 4_500);
    assert_eq!(last.language, Some("de".to_string()));

    // A session stops once.
    let again = server.stop_listening(&stop(id, None), 5_000).unwrap_err();
    assert_eq!(params_message(again), "Session is not listening");
    assert_eq!(server.history_len(), 1);
}

#[test]
fn session_can_stop_without_a_transcription() {
    let mut server = VttMcpServer::new();
    let id = Uuid::new_v4();
    server.begin_session(id.as_u128(), config(), 50);
    let stopped = server.stop_listening(&stop(id, Some(false)), 80).unwrap();
    assert_eq!(stopped.status, "stopped");
    assert_eq!(stopped.duration_ms, 30);
    assert!(stopped.transcription.is_none());
    assert_eq!(server.history_len(), 0);
    assert_eq!(server.find_session_state(id.as_u128()).unwrap().status, SessionStatus::Stopped);
    let asked = GetLastTranscriptionParams { session_id: Some(id.to_string()) };
    assert_eq!(
        params_message(server.get_last_transcription(&asked).unwrap_err()),
        "Session has no transcription"
    );
}

#[test]
fn requests_that_name_no_session_are_refused() {
    let mut server = VttMcpServer::new();
    let known = Uuid::new_v4();
    let unknown = Uuid::new_v4();
    server.begin_session(known.as_u128(), config(), 0);
    let bad = StopListeningParams { session_id: "not-a-uuid".to_string(), transcribe: None };
    assert_eq!(
        params_message(server.stop_listening(&bad, 1).unwrap_err()),
        "Invalid session_id format"
    );
    assert_eq!(
        params_message(server.stop_listening(&stop(unknown, None), 1).unwrap_err()),
        "Session not found"
    );
    let asked = GetLastTranscriptionParams { session_id: Some("???".to_string()) };
    assert_eq!(
        params_message(server.get_last_transcription(&asked).unwrap_err()),
        "Invalid session_id format"
    );
    let asked = GetLastTranscriptionParams { session_id: Some(unknown.to_string()) };
    assert_eq!(
        params_message(server.get_last_transcription(&asked).unwrap_err()),
        "Session not found"
    );
    assert_eq!(
        server.find_session_state(known.as_u128()).unwrap().status,
        SessionStatus::Listening
    );
}

#[test]
fn time_that_runs_backwards_wraps_the_duration() {
    let mut server = VttMcpServer::new();
    let id = Uuid::new_v4();
    server.begin_session(id.as_u128(), config(), 100);
    let stopped = server.stop_listening(&stop(id, None), 99).unwrap();
    assert_eq!(stopped.duration_ms, u64::MAX);
}

#[test]
fn resources_are_the_listening_sessions() {
    let mut server = VttMcpServer::new();
    let first = Uuid::new_v4();
    let second = Uuid::new_v4();
    let third = Uuid::new_v4();
    server.begin_session(first.as_u128(), config(), 0);
    server.begin_session(second.as_u128(), config(), 1);
    server.begin_session(third.as_u128(), config(), 2);
    server.stop_listening(&stop(second, Some(false)), 5).unwrap();
    let resources = server.list_resources();
    assert_eq!(resources.len(), 2);
    // The order of the resources is not stated.
    let of = |id: Uuid| resources.iter().find(|r| r.session_id == id.as_u128());
    let one = of(first).unwrap();
    assert_eq!(one.uri, format!("transcript://live/{}", first));
    assert_eq!(one.name, format!("session-{}", first));
    assert_eq!(one.title, format!("Live transcription for session {}", first));
    assert_eq!(one.description, "Real-time transcription stream");
    assert_eq!(one.mime_type, "text");
    assert_eq!(of(third).unwrap().uri, format!("transcript://live/{}", third));
    assert!(of(second).is_none());
    // Starting a session again under its id replaces it.
    server.begin_session(first.as_u128(), config(), 9);
    assert_eq!(server.session_count(), 3);
    assert_eq!(server.find_session_state(first.as_u128()).unwrap().start_time, 9);
    let mut ids = server.session_ids();
    ids.sort();
    let mut expected = vec![first.as_u128(), second.as_u128(), third.as_u128()];
    expected.sort();
    assert_eq!(ids, expected);
    // A session that listens again is a resource again.
    server.begin_session(second.as_u128(), config(), 10);
    assert_eq!(server.list_resources().len(), 3);
}

#[test]
fn resource_addresses_are_read() {
    let id = Uuid::new_v4();
    assert_eq!(
        parse_resource_uri(&format!("transcript://live/{}", id), "bad").unwrap(),
        id.as_u128()
    );
    assert_eq!(
        parse_resource_uri(&format!("transcript://live/{}", id.simple()), "bad").unwrap(),
        id.as_u128()
    );
    assert_eq!(
        params_message(parse_resource_uri(&format!("transcript://{}", id), "bad").unwrap_err()),
        "bad"
    );
    assert_eq!(params_message(parse_resource_uri("", "bad").unwrap_err()), "bad");
    assert_eq!(
        params_message(parse_resource_uri("transcript://live/", "bad").unwrap_err()),
        "Invalid session ID format"
    );
    assert_eq!(
        params_message(parse_resource_uri("transcript://live/xyz", "bad").unwrap_err()),
        "Invalid session ID format"
    );
    assert_eq!(
        params_message(parse_resource_uri("trånscript://live/xyz", "bad").unwrap_err()),
        "bad"
    );
}

#[test]
fn subscriptions_go_by_resource_address() {
    let mut server = VttMcpServer::new();
    let id = Uuid::new_v4();
    let uri = format!("transcript://live/{}", id);
    assert_eq!(
        params_message(server.subscribe(&uri, "c1".to_string(), 1).unwrap_err()),
        "Session not found"
    );
    server.begin_session(id.as_u128(), config(), 0);
    server.subscribe(&uri, "c1".to_string(), 1).unwrap();
    server.subscribe(&uri, "c2".to_string(), 2).unwrap();
    assert_eq!(server.get_subscribers(id.as_u128()).len(), 2);
    assert_eq!(
        params_message(server.subscribe("http://live/x", "c3".to_string(), 3).unwrap_err()),
        "Invalid resource URI. Expected: transcript://live/{session_id}"
    );
    assert_eq!(
        params_message(
            server.subscribe("transcript://live/nothing", "c3".to_string(), 3).unwrap_err()
        ),
        "Invalid session ID format"
    );
    server.unsubscribe(&uri, "c1").unwrap();
    let left = server.get_subscribers(id.as_u128());
    assert_eq!(left.len(), 1);
    assert_eq!(left[0].client_id, "c2");
    assert_eq!(left[0].subscribed_at, 2);
    assert_eq!(
        params_message(server.unsubscribe("nowhere", "c2").unwrap_err()),
        "Invalid resource URI"
    );
    // Ending a subscription asks for no session.
    server.unsubscribe(&format!("transcript://live/{}", Uuid::new_v4()), "c2").unwrap();
    assert_eq!(server.get_subscribers(id.as_u128()).len(), 1);
}

#[test]
fn live_transcription_is_read() {
    let mut server = VttMcpServer::new();
    let id = Uuid::new_v4();
    let uri = format!("transcript://live/{}", id);
    assert_eq!(params_message(server.read_resource(&uri).unwrap_err()), "Session not found");
    server.begin_session(id.as_u128(), config(), 0);
    assert_eq!(server.read_resource(&uri).unwrap(), "No transcription yet");
    server.stop_listening(&stop(id, None), 10).unwrap();
    assert_eq!(server.read_resource(&uri).unwrap(), "Placeholder transcription");
    assert_eq!(
        params_message(server.read_resource("file:///etc/passwd").unwrap_err()),
        "Invalid resource URI"
    );
}

#[test]
fn language_of_a_request_is_checked() {
    assert_eq!(check_language(&None).unwrap(), None);
    assert_eq!(check_language(&Some("auto".to_string())).unwrap(), None);
    assert_eq!(check_language(&Some("fr".to_string())).unwrap(), Some("fr".to_string()));
    assert_eq!(
        params_message(check_language(&Some("xx".to_string())).unwrap_err()),
        "Unsupported language code: 'xx'. Use list_languages tool to see supported languages."
    );
    assert_eq!(check_clip(10, &Some("ja".to_string())).unwrap(), Some("ja".to_string()));
    match check_clip(0, &Some("xx".to_string())) {
        Err(VttError::NoAudioData(message)) => assert_eq!(message, "Audio file contains no samples"),
        _ => panic!("an error of no audio data was expected"),
    }
    assert!(matches!(check_clip(1, &Some("xx".to_string())), Err(VttError::InvalidParams(_))));
    assert_eq!(
        params_message(missing_file_error("/tmp/none.wav")),
        "Audio file not found: /tmp/none.wav"
    );
}

#[test]
fn request_goes_before_environment_and_default() {
    let env = EnvSettings {
        model: Some("env/model.bin".to_string()),
        threads: Some(3),
        use_gpu: Some(false),
    };
    let asked = resolve_config_for(
        &Some("asked/model.bin".to_string()),
        Some("en".to_string()),
        Some(true),
        Some(9),
        &env,
        16,
    );
    assert_eq!(asked.model_path, "asked/model.bin");
    assert_eq!(asked.language, Some("en".to_string()));
    assert!(asked.use_gpu);
    assert_eq!(asked.n_threads, 9);

    let from_env = resolve_config_for(&None, None, None, None, &env, 16);
    assert_eq!(from_env.model_path, "env/model.bin");
    assert_eq!(from_env.language, None);
    assert!(!from_env.use_gpu);
    assert_eq!(from_env.n_threads, 3);

    let default = resolve_config_for(&None, None, None, None, &no_env(), 16);
    assert_eq!(default.model_path, "models/ggml-base.bin");
    assert!(default.use_gpu);
    assert_eq!(default.n_threads, 16);
    assert_eq!(default.required_sample_rate, 16000);
    assert_eq!(default.max_sessions, 4);
    // A number of threads of zero is taken as it is.
    assert_eq!(resolve_config_for(&None, None, None, Some(0), &no_env(), 16).n_threads, 0);

    let here = resolve_config(&None, None, Some(false), Some(5), &no_env());
    assert_eq!(here.n_threads, 5);
    assert!(!here.use_gpu);
    assert!(resolve_config(&None, None, None, None, &no_env()).n_threads >= 1);
}

#[test]
fn audio_devices_are_listed() {
    let mut server = VttMcpServer::new();
    let found = devices(&["Microphone", "Line In"]);
    let listed = server.list_audio_devices(&found);
    assert_eq!(listed.default_device, "Microphone");
    assert_eq!(listed.devices.len(), 2);
    assert!(listed.devices.iter().all(|device| !device.is_default));
    assert_eq!(server.list_audio_devices(&Vec::new()).default_device, "default");

    let asked = ConfigureAudioParams {
        device_name: Some("Line In".to_string()),
        vad_sensitivity: Some(level(2.5)),
    };
    let configured = server.configure_audio(&asked, &found).unwrap();
    assert_eq!(configured.default_device, Some("Line In".to_string()));
    assert_eq!(configured.vad_config.energy_threshold, level(1.0));
    assert_eq!(configured.vad_config.speech_frames_threshold, 3);
    assert_eq!(configured.available_devices.len(), 2);
    assert!(!configured.available_devices[0].is_default);
    assert!(configured.available_devices[1].is_default);
    assert_eq!(configured.available_devices[1].name, "Line In");

    let listed = server.list_audio_devices(&found);
    assert_eq!(listed.default_device, "Line In");
    assert!(listed.devices[1].is_default);
    assert_eq!(server.audio_config().default_device, Some("Line In".to_string()));
}

#[test]
fn unknown_audio_device_is_refused() {
    let mut server = VttMcpServer::new();
    let found = devices(&["Microphone"]);
    let asked = ConfigureAudioParams {
        device_name: Some("Headset".to_string()),
        vad_sensitivity: Some(level(0.3)),
    };
    match server.configure_audio(&asked, &found) {
        Err(VttError::DeviceNotFound(name)) => assert_eq!(name, "Headset"),
        _ => panic!("an error of a device that was not found was expected"),
    }
    // The settings stay as they are.
    assert_eq!(server.audio_config().default_device, None);
    assert_eq!(server.audio_config().vad_config, VadConfigInfo::default());
    let only_level = ConfigureAudioParams { device_name: None, vad_sensitivity: Some(level(0.3)) };
    let configured = server.configure_audio(&only_level, &found).unwrap();
    assert_eq!(configured.default_device, None);
    assert_eq!(configured.vad_config.energy_threshold, level(0.3));
    assert_eq!(f32::from_bits(VadConfigInfo::default().energy_threshold.to_bits()), 0.01);
}

#[test]
fn transcription_is_shown_with_a_span_that_is_not_negative() {
    let shown: TranscriptionResult = Transcription::new("text".to_string(), -5, 1200).into();
    assert_eq!(shown.text, "text");
    assert_eq!(shown.confidence, None);
    assert_eq!(shown.start_ms, 0);
    assert_eq!(shown.end_ms, 1200);
    let shown: TranscriptionResult = Transcription::new(String::new(), 7, i64::MIN).into();
    assert_eq!(shown.start_ms, 7);
    assert_eq!(shown.end_ms, 0);
}
