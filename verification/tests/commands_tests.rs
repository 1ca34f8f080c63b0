use file_transcription::commands::{
    available_file_transcription_providers, deepgram_options_from, TranscriptionProgress,
    TranscriptionProviderType,
};

#[test]
fn provider_names() {
    assert_eq!(TranscriptionProviderType::Whisper.to_string(), "whisper");
    assert_eq!(TranscriptionProviderType::Parakeet.to_string(), "parakeet");
    assert_eq!(TranscriptionProviderType::Deepgram.to_string(), "deepgram");
}

#[test]
fn progress_update_fields() {
    let p = TranscriptionProgress::new("loading", 20, "Decoding audio...");
    assert_eq!(p.stage, "loading");
    assert_eq!(p.progress, 20);
    assert_eq!(p.message, "Decoding audio...");
}

#[test]
fn options_without_overrides_are_the_defaults() {
    let o = deepgram_options_from(None, None, None, None, None);
    assert_eq!(o.model, "nova-2");
    assert_eq!(o.language.as_deref(), Some("en"));
    assert!(!o.diarize && o.punctuate && o.smart_format);
}

#[test]
fn each_override_replaces_its_option() {
    let o = deepgram_options_from(
        Some("nova-2-general".to_string()),
        Some("de".to_string()),
        Some(true),
        Some(false),
        Some(false),
    );
    assert_eq!(o.model, "nova-2-general");
    assert_eq!(o.language.as_deref(), Some("de"));
    assert!(o.diarize && !o.punctuate && !o.smart_format);
    let o = deepgram_options_from(None, None, Some(true), None, None);
    assert_eq!(o.model, "nova-2");
    assert!(o.diarize && o.punctuate && o.smart_format);
}

#[test]
fn deepgram_listed_only_when_configured() {
    assert_eq!(available_file_transcription_providers(false), vec!["whisper", "parakeet"]);
    assert_eq!(
        available_file_transcription_providers(true),
        vec!["whisper", "parakeet", "deepgram"]
    );
}
