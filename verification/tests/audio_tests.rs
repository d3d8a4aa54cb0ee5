use vtt_core::audio::decode::first_channel;
use vtt_core::audio::device::describe_devices;
use vtt_core::audio::{AudioError, AudioFormat, AudioSampleFormat, VERSION};

#[test]
fn test_error_display() {
    let err = AudioError::DeviceError("test error".to_string());
    assert_eq!(err.to_string(), "Audio device error: test error");
}

#[test]
fn test_io_error_conversion() {
    let io_err = std::io::Error::new(std::io::ErrorKind::NotFound, "file not found");
    let audio_err: AudioError = io_err.into();
    assert!(matches!(audio_err, AudioError::IoError(_)));
}

#[test]
fn test_default_format() {
    let fmt = AudioFormat::default();
    assert_eq!(fmt.sample_rate, 48000);
    assert_eq!(fmt.channels, 2);
    assert_eq!(fmt.sample_format, AudioSampleFormat::F32);
}

#[test]
fn test_stt_format() {
    let fmt = AudioFormat::stt_default();
    assert_eq!(fmt.sample_rate, 16000);
    assert_eq!(fmt.channels, 1);
    assert_eq!(fmt.sample_format, AudioSampleFormat::F32);
}

#[test]
fn test_module_version() {
    assert_eq!(VERSION, "0.1.0");
}

#[test]
fn test_version() {
    assert_eq!(vtt_core::VERSION, "0.1.0");
}

#[test]
fn audio_format_new_keeps_its_arguments() {
    let fmt = AudioFormat::new(44100, 1, AudioSampleFormat::I16);
    assert_eq!(
        fmt,
        AudioFormat { sample_rate: 44100, channels: 1, sample_format: AudioSampleFormat::I16 }
    );
}

#[test]
fn format_matches_a_configuration_with_the_same_values() {
    let fmt = AudioFormat::stt_default();
    assert!(fmt.matches_config(Some(AudioSampleFormat::F32), 1, 16000));
    assert!(!fmt.matches_config(Some(AudioSampleFormat::I16), 1, 16000));
    assert!(!fmt.matches_config(None, 1, 16000));
    assert!(!fmt.matches_config(Some(AudioSampleFormat::F32), 2, 16000));
    assert!(!fmt.matches_config(Some(AudioSampleFormat::F32), 1, 48000));
}

#[test]
fn each_audio_error_has_its_text() {
    assert_eq!(AudioError::StreamError("s".to_string()).to_string(), "Audio stream error: s");
    assert_eq!(AudioError::CaptureError("c".to_string()).to_string(), "Audio capture error: c");
    assert_eq!(AudioError::Other("o".to_string()).to_string(), "Audio error: o");
    let io_err = std::io::Error::new(std::io::ErrorKind::NotFound, "file not found");
    assert_eq!(AudioError::from(io_err).to_string(), "I/O error: file not found");
}

#[test]
fn devices_are_described_in_order_with_the_default_marked() {
    let names = vec!["Microphone".to_string(), "Line In".to_string(), "Webcam".to_string()];
    let devices = describe_devices(&names, &Some("Line In".to_string()));
    assert_eq!(devices.len(), 3);
    assert_eq!(devices[0].name, "Microphone");
    assert!(!devices[0].is_default);
    assert_eq!(devices[1].name, "Line In");
    assert!(devices[1].is_default);
    assert_eq!(devices[2].name, "Webcam");
    assert!(!devices[2].is_default);

    let devices = describe_devices(&names, &None);
    assert!(devices.iter().all(|device| !device.is_default));
    assert!(describe_devices(&Vec::new(), &Some("Line In".to_string())).is_empty());
}

fn chunk_of(samples: &[f32]) -> Vec<u8> {
    samples.iter().flat_map(|sample| sample.to_le_bytes()).collect()
}

fn floats(bits: Vec<u32>) -> Vec<f32> {
    bits.into_iter().map(f32::from_bits).collect()
}

#[test]
fn first_channel_of_interleaved_frames() {
    let stereo = chunk_of(&[0.1, -0.1, 0.2, -0.2, 0.3, -0.3]);
    assert_eq!(floats(first_channel(&stereo, 24, 2)), vec![0.1, 0.2, 0.3]);
    let mono = chunk_of(&[0.5, 0.25, -1.0]);
    assert_eq!(floats(first_channel(&mono, 12, 1)), vec![0.5, 0.25, -1.0]);
    // A frame that is begun but not complete still gives its first sample.
    let ragged = chunk_of(&[1.0, 2.0, 3.0, 4.0, 5.0]);
    assert_eq!(floats(first_channel(&ragged, 20, 3)), vec![1.0, 4.0]);
    assert_eq!(floats(first_channel(&ragged, 20, 5)), vec![1.0]);
    assert_eq!(floats(first_channel(&ragged, 20, 6)), vec![1.0]);
}

#[test]
fn first_channel_keeps_to_the_chunk_and_to_the_buffer() {
    let stereo = chunk_of(&[0.1, -0.1, 0.2, -0.2, 0.3, -0.3]);
    // The chunk is shorter than the buffer.
    assert_eq!(floats(first_channel(&stereo, 16, 2)), vec![0.1, 0.2]);
    assert_eq!(floats(first_channel(&stereo, 19, 2)), vec![0.1, 0.2]);
    assert_eq!(floats(first_channel(&stereo, 20, 2)), vec![0.1, 0.2, 0.3]);
    // The chunk size announces more than the buffer holds.
    assert_eq!(floats(first_channel(&stereo, 4000, 2)), vec![0.1, 0.2, 0.3]);
    assert_eq!(floats(first_channel(&stereo[..22], 4000, 2)), vec![0.1, 0.2, 0.3]);
    assert_eq!(floats(first_channel(&stereo[..19], 4000, 2)), vec![0.1, 0.2]);
    assert!(first_channel(&stereo, 3, 2).is_empty());
    assert!(first_channel(&[], 8, 2).is_empty());
    assert_eq!(first_channel(&[0x78, 0x56, 0x34, 0x12], 4, 1), vec![0x1234_5678]);
}
