use file_transcription::audio_file::{
    check_extension, decode_plan, describe_probed_file, is_supported_extension, packet_action,
    AudioFileError, DurationEstimate, PacketAction, PacketEvent, ProbedTrack, SUPPORTED_EXTENSIONS,
    TARGET_SAMPLE_RATE,
};

#[test]
fn test_supported_extensions() {
    assert!(SUPPORTED_EXTENSIONS.contains(&"mp3"));
    assert!(SUPPORTED_EXTENSIONS.contains(&"wav"));
    assert!(SUPPORTED_EXTENSIONS.contains(&"m4a"));
}

#[test]
fn unsupported_extension_is_refused() {
    match check_extension(Some("txt")) {
        Err(AudioFileError::UnsupportedFormat(ext)) => assert_eq!(ext, "txt"),
        _ => panic!("txt must be refused"),
    }
}

#[test]
fn missing_extension_is_refused() {
    let err = check_extension(None).err().unwrap();
    assert!(matches!(err, AudioFileError::NoExtension));
    assert_eq!(err.message(), "File has no extension");
}

#[test]
fn extension_is_lowercased_before_the_check() {
    assert_eq!(check_extension(Some("MP3")).ok().unwrap(), "mp3");
    assert_eq!(check_extension(Some("Flac")).ok().unwrap(), "flac");
    assert_eq!(check_extension(Some("opus")).ok().unwrap(), "opus");
}

#[test]
fn every_listed_extension_is_supported_and_nothing_else() {
    for ext in SUPPORTED_EXTENSIONS.iter() {
        assert!(is_supported_extension(ext));
    }
    assert!(!is_supported_extension("MP3"));
    assert!(!is_supported_extension("mp"));
    assert!(!is_supported_extension(""));
    assert!(!is_supported_extension("mkv"));
}

#[test]
fn unsupported_format_message_lists_the_formats() {
    let err = check_extension(Some("TXT")).err().unwrap();
    assert_eq!(
        err.message(),
        "Unsupported audio format: .txt. Supported formats: mp3, wav, m4a, mp4, ogg, flac, webm, aac, wma, opus"
    );
}

#[test]
fn other_error_messages() {
    assert_eq!(AudioFileError::NoAudioTracks.message(), "No audio tracks found in file");
    assert_eq!(AudioFileError::UnknownSampleRate.message(), "Could not determine sample rate");
    assert_eq!(AudioFileError::NoTrackToDecode.message(), "No audio tracks found");
}

fn track(
    sample_rate: Option<u32>,
    channels: Option<usize>,
    n_frames: Option<u64>,
    bits: Option<u32>,
) -> ProbedTrack {
    ProbedTrack { sample_rate, channels, n_frames, bits_per_sample: bits }
}

#[test]
fn probed_file_with_frame_count() {
    let facts =
        describe_probed_file("wav".to_string(), 1000, Some(track(Some(44100), Some(1), Some(88200), None)))
            .ok()
            .unwrap();
    assert_eq!(facts.sample_rate, 44100);
    assert_eq!(facts.channels, 1);
    assert_eq!(facts.format, "wav");
    assert_eq!(facts.file_size_bytes, 1000);
    match facts.duration {
        DurationEstimate::FrameCount { n_frames, sample_rate } => {
            assert_eq!(n_frames, 88200);
            assert_eq!(sample_rate, 44100);
        }
        _ => panic!("expected a frame count"),
    }
}

#[test]
fn probed_file_without_frame_count_uses_size_and_defaults() {
    let facts = describe_probed_file("mp3".to_string(), 64000, Some(track(Some(16000), None, None, None)))
        .ok()
        .unwrap();
    assert_eq!(facts.channels, 2);
    match facts.duration {
        DurationEstimate::FileSize { file_size_bytes, sample_rate, channels, bits_per_sample } => {
            assert_eq!(file_size_bytes, 64000);
            assert_eq!(sample_rate, 16000);
            assert_eq!(channels, 2);
            assert_eq!(bits_per_sample, 16);
        }
        _ => panic!("expected a size estimate"),
    }
}

#[test]
fn zero_byte_rate_gives_no_estimate() {
    let facts = describe_probed_file("ogg".to_string(), 10, Some(track(Some(8000), Some(1), None, Some(0))))
        .ok()
        .unwrap();
    assert!(matches!(facts.duration, DurationEstimate::Unknown));
}

#[test]
fn channel_count_is_truncated_to_sixteen_bits() {
    let facts = describe_probed_file("wav".to_string(), 1, Some(track(Some(8000), Some(65538), Some(1), None)))
        .ok()
        .unwrap();
    assert_eq!(facts.channels, 2);
}

#[test]
fn probed_file_errors() {
    assert!(matches!(
        describe_probed_file("wav".to_string(), 1, None),
        Err(AudioFileError::NoAudioTracks)
    ));
    assert!(matches!(
        describe_probed_file("wav".to_string(), 1, Some(track(None, Some(1), Some(1), None))),
        Err(AudioFileError::UnknownSampleRate)
    ));
}

#[test]
fn decode_plan_decisions() {
    let p = decode_plan(&track(Some(44100), Some(2), None, None)).ok().unwrap();
    assert_eq!(p.source_channels, 2);
    assert!(p.downmix);
    assert!(p.resample);
    let p = decode_plan(&track(Some(TARGET_SAMPLE_RATE), Some(1), None, None)).ok().unwrap();
    assert!(!p.downmix);
    assert!(!p.resample);
    let p = decode_plan(&track(Some(16000), None, None, None)).ok().unwrap();
    assert_eq!(p.source_channels, 2);
    assert!(p.downmix);
    assert!(matches!(
        decode_plan(&track(None, None, None, None)),
        Err(AudioFileError::UnknownSampleRate)
    ));
}

#[test]
fn packet_decisions() {
    assert_eq!(packet_action(PacketEvent::EndOfStream, 3), PacketAction::Stop);
    assert_eq!(packet_action(PacketEvent::ReadFailed, 3), PacketAction::Stop);
    assert_eq!(packet_action(PacketEvent::Packet { track_id: 3 }, 3), PacketAction::Decode);
    assert_eq!(packet_action(PacketEvent::Packet { track_id: 4 }, 3), PacketAction::Skip);
    assert_eq!(packet_action(PacketEvent::DecodeFailed, 3), PacketAction::Skip);
    assert_eq!(packet_action(PacketEvent::Decoded, 3), PacketAction::Append);
}
