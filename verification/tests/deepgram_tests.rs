use file_transcription::deepgram::{api_error, select_transcript, DeepgramOptions, DeepgramProvider};
use file_transcription::errors::TranscriptionError;

fn failure_text(e: TranscriptionError) -> String {
    match e {
        TranscriptionError::EngineFailed(m) => m,
        TranscriptionError::AudioTooShort { .. } => panic!("expected an engine failure"),
    }
}

#[test]
fn test_provider_not_configured() {
    let provider = DeepgramProvider::new();
    assert!(!provider.is_configured());
}

#[test]
fn test_provider_with_api_key() {
    let provider = DeepgramProvider::with_api_key("test-key".to_string());
    assert!(provider.is_configured());
}

#[test]
fn setting_a_key_configures_the_provider() {
    let mut provider = DeepgramProvider::new();
    provider.set_api_key("k".to_string());
    assert!(provider.is_configured());
    assert_eq!(provider.options().model, "nova-2");
}

#[test]
fn default_options() {
    let o = DeepgramOptions::default();
    assert_eq!(o.model, "nova-2");
    assert_eq!(o.language.as_deref(), Some("en"));
    assert!(!o.diarize);
    assert!(o.punctuate);
    assert!(o.smart_format);
}

#[test]
fn options_read_back_as_set() {
    let mut provider = DeepgramProvider::with_api_key("k".to_string());
    let mut o = DeepgramOptions::default();
    o.model = "whisper-medium".to_string();
    o.language = None;
    o.diarize = true;
    provider.set_options(o);
    assert_eq!(provider.options().model, "whisper-medium");
    assert_eq!(provider.options().language, None);
    assert!(provider.options().diarize);
    assert!(provider.is_configured());
    assert_eq!(provider.get_current_model().unwrap(), "deepgram:whisper-medium");
}

#[test]
fn current_model_names_deepgram() {
    let provider = DeepgramProvider::new();
    assert_eq!(provider.get_current_model(), Some("deepgram:nova-2".to_string()));
}

#[test]
fn request_without_key_is_refused() {
    let provider = DeepgramProvider::new();
    let err = provider.transcribe_bytes(vec![1, 2, 3], "audio/wav").err().unwrap();
    assert_eq!(failure_text(err), "Deepgram API key not configured");
}

#[test]
fn request_carries_options_key_and_body() {
    let provider = DeepgramProvider::with_api_key("secret".to_string());
    let req = provider.transcribe_bytes(vec![1, 2, 3], "audio/wav").ok().unwrap();
    assert_eq!(
        req.url,
        "https://api.deepgram.com/v1/listen?model=nova-2&punctuate=true&diarize=false&smart_format=true&language=en"
    );
    assert_eq!(req.authorization, "Token secret");
    assert_eq!(req.content_type, "audio/wav");
    assert_eq!(req.body, vec![1, 2, 3]);
}

#[test]
fn request_query_values_are_form_encoded() {
    let mut provider = DeepgramProvider::with_api_key("k".to_string());
    let mut o = DeepgramOptions::default();
    o.model = "a b&c".to_string();
    o.language = None;
    o.punctuate = false;
    provider.set_options(o);
    let req = provider.transcribe_bytes(Vec::new(), "audio/ogg").ok().unwrap();
    assert_eq!(
        req.url,
        "https://api.deepgram.com/v1/listen?model=a+b%26c&punctuate=false&diarize=false&smart_format=true"
    );
    assert_eq!(req.content_type, "audio/ogg");
}

#[test]
fn short_audio_is_refused_but_language_is_kept() {
    let mut provider = DeepgramProvider::with_api_key("k".to_string());
    let audio = vec![0i16; 1599];
    match provider.transcribe(&audio, Some("fr".to_string())) {
        Err(TranscriptionError::AudioTooShort { samples, minimum }) => {
            assert_eq!(samples, 1599);
            assert_eq!(minimum, 1600);
        }
        _ => panic!("expected AudioTooShort"),
    }
    assert_eq!(provider.options().language.as_deref(), Some("fr"));
}

#[test]
fn transcription_request_sends_wav() {
    let mut provider = DeepgramProvider::with_api_key("k".to_string());
    let audio = vec![7i16; 1600];
    let req = provider.transcribe(&audio, Some("es".to_string())).ok().unwrap();
    assert_eq!(req.content_type, "audio/wav");
    assert_eq!(req.body.len(), 44 + 3200);
    assert_eq!(&req.body[0..4], b"RIFF");
    assert_eq!(u32::from_le_bytes([req.body[24], req.body[25], req.body[26], req.body[27]]), 16000);
    assert!(req.url.ends_with("&language=es"));
}

#[test]
fn transcription_without_key_fails_after_length_check() {
    let mut provider = DeepgramProvider::new();
    let err = provider.transcribe(&vec![0i16; 2000], None).err().unwrap();
    assert_eq!(failure_text(err), "Deepgram API key not configured");
}

#[test]
fn api_error_messages() {
    let e = api_error(
        "401 Unauthorized",
        "{}",
        Some(("INVALID_AUTH".to_string(), "Invalid credentials.".to_string())),
    );
    assert_eq!(
        failure_text(e),
        "Deepgram API error (401 Unauthorized): INVALID_AUTH - Invalid credentials."
    );
    let e = api_error("500 Internal Server Error", "oops", None);
    assert_eq!(failure_text(e), "Deepgram API error (500 Internal Server Error): oops");
}

#[test]
fn transcript_is_first_alternative_of_first_channel() {
    let results = Some(vec![vec![("hello", 0.9), ("jello", 0.1)], vec![("other", 0.5)]]);
    let (text, confidence) = select_transcript(results).ok().unwrap();
    assert_eq!(text, "hello");
    assert_eq!(confidence, 0.9);
}

#[test]
fn missing_transcript_is_an_error() {
    let none: Option<Vec<Vec<u8>>> = None;
    assert_eq!(failure_text(select_transcript(none).err().unwrap()), "No transcript in Deepgram response");
    let empty: Option<Vec<Vec<u8>>> = Some(vec![]);
    assert_eq!(failure_text(select_transcript(empty).err().unwrap()), "No transcript in Deepgram response");
    let no_alt: Option<Vec<Vec<u8>>> = Some(vec![vec![], vec![1]]);
    assert_eq!(failure_text(select_transcript(no_alt).err().unwrap()), "No transcript in Deepgram response");
}

#[test]
fn checked_requests_match_the_unchecked_ones() {
    let mut provider = DeepgramProvider::with_api_key("k".to_string());
    let a = provider.checked_transcribe_bytes(vec![9], "audio/wav").unwrap().ok().unwrap();
    let b = provider.transcribe_bytes(vec![9], "audio/wav").ok().unwrap();
    assert_eq!(a.url, b.url);
    assert_eq!(a.authorization, b.authorization);
    assert_eq!(a.body, b.body);
    let c = provider.checked_transcribe(&vec![1i16; 1600], Some("it".to_string())).unwrap().ok().unwrap();
    assert!(c.url.ends_with("&language=it"));
    assert_eq!(c.body.len(), 44 + 3200);
    match provider.checked_transcribe(&vec![1i16; 10], None).unwrap() {
        Err(TranscriptionError::AudioTooShort { samples, minimum }) => {
            assert_eq!((samples, minimum), (10, 1600));
        }
        _ => panic!("expected AudioTooShort"),
    }
}
