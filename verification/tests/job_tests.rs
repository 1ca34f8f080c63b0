use file_transcription::commands::TranscriptionProviderType;
use file_transcription::job::{JobAction, JobEvent, JobOutput, JobStage, TranscriptionJob};

struct Outcomes {
    file: Result<(), String>,
    audio: Result<(), String>,
    engine: bool,
    ready: bool,
    transcript: Result<String, String>,
    model: Option<String>,
}

fn ok_outcomes() -> Outcomes {
    Outcomes {
        file: Ok(()),
        audio: Ok(()),
        engine: true,
        ready: true,
        transcript: Ok("hello world".to_string()),
        model: Some("large-v3".to_string()),
    }
}

/// Runs a job to its end, answering each action from `o`; gives the
/// emitted progress updates, the language handed to the engine, and the result.
fn run(
    provider: TranscriptionProviderType,
    language: Option<String>,
    o: Outcomes,
) -> (Vec<(String, u8, String)>, Option<Option<String>>, Result<JobOutput, String>) {
    let mut job = TranscriptionJob::new(provider, language);
    let mut emitted = Vec::new();
    let mut language_used = None;
    let mut event = JobEvent::Proceed;
    for _ in 0..20 {
        assert!(job.accepts(&event));
        let action = job.step(event);
        event = match action {
            JobAction::Emit(p) => {
                emitted.push((p.stage, p.progress, p.message));
                JobEvent::Proceed
            }
            JobAction::ValidateFile => JobEvent::FileChecked(o.file.clone()),
            JobAction::LoadAudio => JobEvent::AudioLoaded(o.audio.clone()),
            JobAction::CheckEngine(p) => {
                assert_eq!(p, provider);
                JobEvent::EngineFound(o.engine)
            }
            JobAction::CheckReady(_) => JobEvent::EngineReady(o.ready),
            JobAction::Transcribe { provider: p, language } => {
                assert_eq!(p, provider);
                language_used = Some(language);
                JobEvent::TranscriptReady(o.transcript.clone())
            }
            JobAction::QueryModel(_) => JobEvent::ModelName(o.model.clone()),
            JobAction::Finish(r) => {
                assert_eq!(job.stage(), JobStage::Done);
                assert!(!job.accepts(&JobEvent::Proceed));
                return (emitted, language_used, r);
            }
        };
    }
    panic!("job did not finish");
}

fn percents(e: &[(String, u8, String)]) -> Vec<u8> {
    e.iter().map(|p| p.1).collect()
}

#[test]
fn successful_whisper_run() {
    let (emitted, lang, result) =
        run(TranscriptionProviderType::Whisper, Some("en".to_string()), ok_outcomes());
    assert_eq!(percents(&emitted), vec![0, 20, 40, 50, 60, 90, 100]);
    assert_eq!(emitted[0], ("loading".to_string(), 0, "Loading audio file...".to_string()));
    assert_eq!(emitted[1], ("loading".to_string(), 20, "Decoding audio...".to_string()));
    assert_eq!(
        emitted[2],
        ("processing".to_string(), 40, "Preparing for transcription...".to_string())
    );
    assert_eq!(
        emitted[3],
        ("transcribing".to_string(), 50, "Transcribing with Whisper...".to_string())
    );
    assert_eq!(emitted[4], ("transcribing".to_string(), 60, "Processing audio...".to_string()));
    assert_eq!(emitted[5], ("transcribing".to_string(), 90, "Finalizing...".to_string()));
    assert_eq!(emitted[6], ("complete".to_string(), 100, "Transcription complete!".to_string()));
    assert_eq!(lang, Some(Some("en".to_string())));
    let out = result.ok().unwrap();
    assert_eq!(out.text, "hello world");
    assert_eq!(out.provider, "whisper");
    assert_eq!(out.model, Some("large-v3".to_string()));
}

#[test]
fn parakeet_gets_no_language() {
    let (emitted, lang, result) =
        run(TranscriptionProviderType::Parakeet, Some("en".to_string()), ok_outcomes());
    assert_eq!(emitted[3].2, "Transcribing with Parakeet...");
    assert_eq!(lang, Some(None));
    assert_eq!(result.ok().unwrap().provider, "parakeet");
}

#[test]
fn deepgram_messages() {
    let mut o = ok_outcomes();
    o.model = None;
    let (emitted, lang, result) = run(TranscriptionProviderType::Deepgram, None, o);
    assert_eq!(emitted[3].2, "Sending to Deepgram API...");
    assert_eq!(emitted[4].2, "Processing with Deepgram...");
    assert_eq!(lang, Some(None));
    let out = result.ok().unwrap();
    assert_eq!(out.provider, "deepgram");
    assert_eq!(out.model, None);
}

#[test]
fn validation_failure_ends_the_job() {
    let mut o = ok_outcomes();
    o.file = Err("File does not exist: /x.mp3".to_string());
    let (emitted, lang, result) = run(TranscriptionProviderType::Whisper, None, o);
    assert_eq!(percents(&emitted), vec![0]);
    assert_eq!(lang, None);
    assert_eq!(result.err().unwrap(), "File validation failed: File does not exist: /x.mp3");
}

#[test]
fn load_failure_ends_the_job() {
    let mut o = ok_outcomes();
    o.audio = Err("bad".to_string());
    let (emitted, _, result) = run(TranscriptionProviderType::Parakeet, None, o);
    assert_eq!(percents(&emitted), vec![0, 20]);
    assert_eq!(result.err().unwrap(), "Failed to load audio: bad");
}

#[test]
fn missing_engine_messages() {
    for (p, msg) in [
        (
            TranscriptionProviderType::Whisper,
            "Whisper engine not initialized. Please initialize Whisper first.",
        ),
        (
            TranscriptionProviderType::Parakeet,
            "Parakeet engine not initialized. Please initialize Parakeet first.",
        ),
        (
            TranscriptionProviderType::Deepgram,
            "Deepgram provider not initialized. Please initialize Deepgram first.",
        ),
    ] {
        let mut o = ok_outcomes();
        o.engine = false;
        let (emitted, _, result) = run(p, None, o);
        assert_eq!(percents(&emitted), vec![0, 20, 40, 50]);
        assert_eq!(result.err().unwrap(), msg);
    }
}

#[test]
fn not_ready_messages() {
    for (p, msg) in [
        (TranscriptionProviderType::Whisper, "Whisper model not loaded. Please load a model first."),
        (TranscriptionProviderType::Parakeet, "Parakeet model not loaded. Please load a model first."),
        (
            TranscriptionProviderType::Deepgram,
            "Deepgram API key not configured. Please set your API key first.",
        ),
    ] {
        let mut o = ok_outcomes();
        o.ready = false;
        let (emitted, _, result) = run(p, None, o);
        assert_eq!(percents(&emitted), vec![0, 20, 40, 50]);
        assert_eq!(result.err().unwrap(), msg);
    }
}

#[test]
fn transcription_failure_messages() {
    for (p, msg) in [
        (TranscriptionProviderType::Whisper, "Whisper transcription failed: boom"),
        (TranscriptionProviderType::Parakeet, "Parakeet transcription failed: boom"),
        (TranscriptionProviderType::Deepgram, "Deepgram transcription failed: boom"),
    ] {
        let mut o = ok_outcomes();
        o.transcript = Err("boom".to_string());
        let (emitted, _, result) = run(p, None, o);
        assert_eq!(percents(&emitted), vec![0, 20, 40, 50, 60]);
        assert_eq!(result.err().unwrap(), msg);
    }
}

#[test]
fn job_refuses_unexpected_events() {
    let mut job = TranscriptionJob::new(TranscriptionProviderType::Whisper, None);
    assert!(!job.accepts(&JobEvent::EngineFound(true)));
    assert!(job.accepts(&JobEvent::Proceed));
    let _ = job.step(JobEvent::Proceed);
    let _ = job.step(JobEvent::Proceed);
    assert_eq!(job.stage(), JobStage::Validating);
    assert!(!job.accepts(&JobEvent::Proceed));
    assert!(job.accepts(&JobEvent::FileChecked(Ok(()))));
}
