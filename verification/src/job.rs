//! The decisions of transcribing one file, as a state machine: the caller
//! performs each action (emitting progress, validating and loading the
//! file, asking the engine) and hands back what came of it.
use vstd::prelude::*;
use crate::commands::{
    TranscriptionProviderType,
    TranscriptionProgress,
    ProgressView,
    provider_name,
};
use crate::deepgram::opt_str;

verus! {

/// Where a transcription job stands.
#[derive(Debug, Clone, Copy, PartialEq, Eq, Structural)]
pub enum JobStage {
    /// Nothing done yet.
    Created,
    /// "loading" (0%) was emitted; the file is to be validated.
    AnnouncedLoading,
    /// Waiting for the file's validation.
    Validating,
    /// "loading" (20%) was emitted; the audio is to be loaded.
    AnnouncedDecoding,
    /// Waiting for the audio to load.
    Loading,
    /// "processing" (40%) was emitted.
    AnnouncedPreparing,
    /// "transcribing" (50%) was emitted; the engine is to be looked up.
    AnnouncedTranscribing,
    /// Waiting to hear whether the engine exists.
    CheckingEngine,
    /// Waiting to hear whether the engine is ready.
    CheckingReady,
    /// "transcribing" (60%) was emitted; the audio is to be transcribed.
    AnnouncedProcessing,
    /// Waiting for the transcript.
    Transcribing,
    /// Waiting for the engine's model name.
    QueryingModel,
    /// "transcribing" (90%) was emitted.
    AnnouncedFinalizing,
    /// "complete" (100%) was emitted.
    AnnouncedComplete,
    /// The job has finished.
    Done,
}

/// What the caller reports back after performing an action.
pub enum JobEvent {
    /// The previous action (an emitted progress update) is done.
    Proceed,
    /// The file's validation: ok, or the error's text.
    FileChecked(Result<(), String>),
    /// Loading the audio: ok, or the error's text.
    AudioLoaded(Result<(), String>),
    /// Whether the engine (or provider) exists.
    EngineFound(bool),
    /// Whether the engine is ready: its model loaded (or its key set).
    EngineReady(bool),
    /// The transcript, or the engine's error text.
    TranscriptReady(Result<String, String>),
    /// The engine's current model name.
    ModelName(Option<String>),
}

/// What a job finished with.
pub struct JobOutput {
    /// Transcribed text
    pub text: String,
    /// Provider used for transcription
    pub provider: String,
    /// Model used (if applicable)
    pub model: Option<String>,
}

/// What the caller is to do next.
pub enum JobAction {
    /// Emit a progress update, then report `Proceed`.
    Emit(TranscriptionProgress),
    /// Validate the file, then report `FileChecked`.
    ValidateFile,
    /// Load the audio, then report `AudioLoaded`.
    LoadAudio,
    /// Look the engine up, then report `EngineFound`.
    CheckEngine(TranscriptionProviderType),
    /// Ask the engine whether it is ready, then report `EngineReady`.
    CheckReady(TranscriptionProviderType),
    /// Transcribe the loaded audio, in the language where one is given,
    /// then report `TranscriptReady`.
    Transcribe { provider: TranscriptionProviderType, language: Option<String> },
    /// Ask the engine for its model, then report `ModelName`.
    QueryModel(TranscriptionProviderType),
    /// The job is over, with this result.
    Finish(Result<JobOutput, String>),
}

/// A transcription job for one file.
pub struct TranscriptionJob {
    provider: TranscriptionProviderType,
    language: Option<String>,
    stage: JobStage,
    text: Option<String>,
    model: Option<String>,
}

/// A job as plain values.
pub struct JobView {
    pub provider: TranscriptionProviderType,
    pub language: Option<Seq<char>>,
    pub stage: JobStage,
    pub text: Option<Seq<char>>,
    pub model: Option<Seq<char>>,
}

impl View for TranscriptionJob {
    type V = JobView;

    closed spec fn view(&self) -> JobView {
        JobView {
            provider: self.provider,
            language: opt_str(self.language),
            stage: self.stage,
            text: opt_str(self.text),
            model: opt_str(self.model),
        }
    }
}

/// An event as plain values.
pub enum EventView {
    Proceed,
    FileChecked(Result<(), Seq<char>>),
    AudioLoaded(Result<(), Seq<char>>),
    EngineFound(bool),
    EngineReady(bool),
    TranscriptReady(Result<Seq<char>, Seq<char>>),
    ModelName(Option<Seq<char>>),
}

/// The view of a result whose error is a string.
pub open spec fn unit_result(r: Result<(), String>) -> Result<(), Seq<char>> {
    match r {
        Ok(()) => Ok(()),
        Err(e) => Err(e@),
    }
}

impl View for JobEvent {
    type V = EventView;

    open spec fn view(&self) -> EventView {
        match self {
            JobEvent::Proceed => EventView::Proceed,
            JobEvent::FileChecked(r) => EventView::FileChecked(unit_result(*r)),
            JobEvent::AudioLoaded(r) => EventView::AudioLoaded(unit_result(*r)),
            JobEvent::EngineFound(b) => EventView::EngineFound(*b),
            JobEvent::EngineReady(b) => EventView::EngineReady(*b),
            JobEvent::TranscriptReady(r) => EventView::TranscriptReady(
                match r {
                    Ok(t) => Ok(t@),
                    Err(e) => Err(e@),
                },
            ),
            JobEvent::ModelName(m) => EventView::ModelName(opt_str(*m)),
        }
    }
}

/// A job's output as plain values.
pub struct OutputView {
    pub text: Seq<char>,
    pub provider: Seq<char>,
    pub model: Option<Seq<char>>,
}

impl View for JobOutput {
    type V = OutputView;

    open spec fn view(&self) -> OutputView {
        OutputView { text: self.text@, provider: self.provider@, model: opt_str(self.model) }
    }
}

/// An action as plain values.
pub enum ActionView {
    Emit(ProgressView),
    ValidateFile,
    LoadAudio,
    CheckEngine(TranscriptionProviderType),
    CheckReady(TranscriptionProviderType),
    Transcribe(TranscriptionProviderType, Option<Seq<char>>),
    QueryModel(TranscriptionProviderType),
    Finish(Result<OutputView, Seq<char>>),
}

impl View for JobAction {
    type V = ActionView;

    open spec fn view(&self) -> ActionView {
        match self {
            JobAction::Emit(p) => ActionView::Emit(p@),
            JobAction::ValidateFile => ActionView::ValidateFile,
            JobAction::LoadAudio => ActionView::LoadAudio,
            JobAction::CheckEngine(p) => ActionView::CheckEngine(*p),
            JobAction::CheckReady(p) => ActionView::CheckReady(*p),
            JobAction::Transcribe { provider, language } => ActionView::Transcribe(
                *provider,
                opt_str(*language),
            ),
            JobAction::QueryModel(p) => ActionView::QueryModel(*p),
            JobAction::Finish(r) => ActionView::Finish(
                match r {
                    Ok(o) => Ok(o@),
                    Err(e) => Err(e@),
                },
            ),
        }
    }
}

/// The message emitted when transcription starts.
pub open spec fn start_message(p: TranscriptionProviderType) -> Seq<char> {
    match p {
        TranscriptionProviderType::Whisper => "Transcribing with Whisper..."@,
        TranscriptionProviderType::Parakeet => "Transcribing with Parakeet..."@,
        TranscriptionProviderType::Deepgram => "Sending to Deepgram API..."@,
    }
}

/// The message emitted once the engine is found ready.
pub open spec fn processing_message(p: TranscriptionProviderType) -> Seq<char> {
    match p {
        TranscriptionProviderType::Deepgram => "Processing with Deepgram..."@,
        _ => "Processing audio..."@,
    }
}

/// The error where the engine does not exist.
pub open spec fn missing_engine_error(p: TranscriptionProviderType) -> Seq<char> {
    match p {
        TranscriptionProviderType::Whisper => "Whisper engine not initialized. Please initialize Whisper first."@,
        TranscriptionProviderType::Parakeet => "Parakeet engine not initialized. Please initialize Parakeet first."@,
        TranscriptionProviderType::Deepgram => "Deepgram provider not initialized. Please initialize Deepgram first."@,
    }
}

/// The error where the engine is not ready.
pub open spec fn not_ready_error(p: TranscriptionProviderType) -> Seq<char> {
    match p {
        TranscriptionProviderType::Whisper => "Whisper model not loaded. Please load a model first."@,
        TranscriptionProviderType::Parakeet => "Parakeet model not loaded. Please load a model first."@,
        TranscriptionProviderType::Deepgram => "Deepgram API key not configured. Please set your API key first."@,
    }
}

/// What precedes the engine's error text where transcription fails.
pub open spec fn failure_prefix(p: TranscriptionProviderType) -> Seq<char> {
    match p {
        TranscriptionProviderType::Whisper => "Whisper transcription failed: "@,
        TranscriptionProviderType::Parakeet => "Parakeet transcription failed: "@,
        TranscriptionProviderType::Deepgram => "Deepgram transcription failed: "@,
    }
}

/// The language handed to the engine: Parakeet takes none.
pub open spec fn engine_language(p: TranscriptionProviderType, language: Option<Seq<char>>) -> Option<
    Seq<char>,
> {
    match p {
        TranscriptionProviderType::Parakeet => None,
        _ => language,
    }
}

/// A progress update as plain values.
pub open spec fn progress(stage: Seq<char>, percent: u8, message: Seq<char>) -> ProgressView {
    ProgressView { stage, progress: percent, message }
}

/// The view of a job with another stage.
pub open spec fn at(v: JobView, stage: JobStage) -> JobView {
    JobView { stage, ..v }
}

/// The event is the one the job waits for.
pub open spec fn accepts(stage: JobStage, e: EventView) -> bool {
    match stage {
        JobStage::Validating => e is FileChecked,
        JobStage::Loading => e is AudioLoaded,
        JobStage::CheckingEngine => e is EngineFound,
        JobStage::CheckingReady => e is EngineReady,
        JobStage::Transcribing => e is TranscriptReady,
        JobStage::QueryingModel => e is ModelName,
        JobStage::Done => false,
        _ => e is Proceed,
    }
}

/// The job's next state and action after an event it waits for.
pub open spec fn next(v: JobView, e: EventView) -> (JobView, ActionView) {
    let p = v.provider;
    match v.stage {
        JobStage::Created => (
            at(v, JobStage::AnnouncedLoading),
            ActionView::Emit(progress("loading"@, 0, "Loading audio file..."@)),
        ),
        JobStage::AnnouncedLoading => (at(v, JobStage::Validating), ActionView::ValidateFile),
        JobStage::Validating => match e {
            EventView::FileChecked(Err(msg)) => (
                at(v, JobStage::Done),
                ActionView::Finish(Err("File validation failed: "@ + msg)),
            ),
            _ => (
                at(v, JobStage::AnnouncedDecoding),
                ActionView::Emit(progress("loading"@, 20, "Decoding audio..."@)),
            ),
        },
        JobStage::AnnouncedDecoding => (at(v, JobStage::Loading), ActionView::LoadAudio),
        JobStage::Loading => match e {
            EventView::AudioLoaded(Err(msg)) => (
                at(v, JobStage::Done),
                ActionView::Finish(Err("Failed to load audio: "@ + msg)),
            ),
            _ => (
                at(v, JobStage::AnnouncedPreparing),
                ActionView::Emit(progress("processing"@, 40, "Preparing for transcription..."@)),
            ),
        },
        JobStage::AnnouncedPreparing => (
            at(v, JobStage::AnnouncedTranscribing),
            ActionView::Emit(progress("transcribing"@, 50, start_message(p))),
        ),
        JobStage::AnnouncedTranscribing => (
            at(v, JobStage::CheckingEngine),
            ActionView::CheckEngine(p),
        ),
        JobStage::CheckingEngine => match e {
            EventView::EngineFound(true) => (at(v, JobStage::CheckingReady), ActionView::CheckReady(p)),
            _ => (at(v, JobStage::Done), ActionView::Finish(Err(missing_engine_error(p)))),
        },
        JobStage::CheckingReady => match e {
            EventView::EngineReady(true) => (
                at(v, JobStage::AnnouncedProcessing),
                ActionView::Emit(progress("transcribing"@, 60, processing_message(p))),
            ),
            _ => (at(v, JobStage::Done), ActionView::Finish(Err(not_ready_error(p)))),
        },
        JobStage::AnnouncedProcessing => (
            at(v, JobStage::Transcribing),
            ActionView::Transcribe(p, engine_language(p, v.language)),
        ),
        JobStage::Transcribing => match e {
            EventView::TranscriptReady(Ok(text)) => (
                JobView { stage: JobStage::QueryingModel, text: Some(text), ..v },
                ActionView::QueryModel(p),
            ),
            EventView::TranscriptReady(Err(msg)) => (
                at(v, JobStage::Done),
                ActionView::Finish(Err(failure_prefix(p) + msg)),
            ),
            _ => (at(v, JobStage::Done), ActionView::Finish(Err(failure_prefix(p)))),
        },
        JobStage::QueryingModel => match e {
            EventView::ModelName(m) => (
                JobView { stage: JobStage::AnnouncedFinalizing, model: m, ..v },
                ActionView::Emit(progress("transcribing"@, 90, "Finalizing..."@)),
            ),
            _ => (
                at(v, JobStage::AnnouncedFinalizing),
                ActionView::Emit(progress("transcribing"@, 90, "Finalizing..."@)),
            ),
        },
        JobStage::AnnouncedFinalizing => (
            at(v, JobStage::AnnouncedComplete),
            ActionView::Emit(progress("complete"@, 100, "Transcription complete!"@)),
        ),
        JobStage::AnnouncedComplete => (
            at(v, JobStage::Done),
            ActionView::Finish(
                Ok(
                    OutputView {
                        text: match v.text {
                            Some(t) => t,
                            None => Seq::empty(),
                        },
                        provider: provider_name(p),
                        model: v.model,
                    },
                ),
            ),
        ),
        JobStage::Done => (v, ActionView::Finish(Err(Seq::empty()))),
    }
}

/// A job's invariant: once the transcript arrived, the job holds it.
pub open spec fn job_wf(v: JobView) -> bool {
    match v.stage {
        JobStage::QueryingModel | JobStage::AnnouncedFinalizing | JobStage::AnnouncedComplete => v.text
            is Some,
        _ => true,
    }
}


/// The last percentage emitted by the time a job reaches `stage` (0 before
/// the first update; 100 once done).
pub open spec fn stage_progress(stage: JobStage) -> u8 {
    match stage {
        JobStage::Created | JobStage::AnnouncedLoading | JobStage::Validating => 0,
        JobStage::AnnouncedDecoding | JobStage::Loading => 20,
        JobStage::AnnouncedPreparing => 40,
        JobStage::AnnouncedTranscribing | JobStage::CheckingEngine | JobStage::CheckingReady => 50,
        JobStage::AnnouncedProcessing | JobStage::Transcribing | JobStage::QueryingModel => 60,
        JobStage::AnnouncedFinalizing => 90,
        JobStage::AnnouncedComplete | JobStage::Done => 100,
    }
}

/// The position of a stage in the order a job goes through them.
pub open spec fn stage_rank(stage: JobStage) -> nat {
    match stage {
        JobStage::Created => 0,
        JobStage::AnnouncedLoading => 1,
        JobStage::Validating => 2,
        JobStage::AnnouncedDecoding => 3,
        JobStage::Loading => 4,
        JobStage::AnnouncedPreparing => 5,
        JobStage::AnnouncedTranscribing => 6,
        JobStage::CheckingEngine => 7,
        JobStage::CheckingReady => 8,
        JobStage::AnnouncedProcessing => 9,
        JobStage::Transcribing => 10,
        JobStage::QueryingModel => 11,
        JobStage::AnnouncedFinalizing => 12,
        JobStage::AnnouncedComplete => 13,
        JobStage::Done => 14,
    }
}

/// Progress never goes back: each step leaves the job at a stage whose
/// progress is at least the one before, and each update it emits carries
/// exactly the progress of the stage it moves to.
pub proof fn lemma_progress_never_decreases(v: JobView, e: EventView)
    requires
        accepts(v.stage, e),
    ensures
        stage_progress(next(v, e).0.stage) >= stage_progress(v.stage),
        next(v, e).1 matches ActionView::Emit(p) ==> p.progress == stage_progress(next(v, e).0.stage),
{
}

/// Every accepted event moves the job forward, so a job is done after at
/// most fourteen steps; a step finishes the job exactly when it leaves the
/// job done; and a job that holds its transcript where it should still
/// does so after the step.
pub proof fn lemma_job_moves_forward(v: JobView, e: EventView)
    requires
        accepts(v.stage, e),
    ensures
        stage_rank(next(v, e).0.stage) > stage_rank(v.stage),
        stage_rank(next(v, e).0.stage) <= 14,
        (next(v, e).1 is Finish) <==> next(v, e).0.stage == JobStage::Done,
        job_wf(v) ==> job_wf(next(v, e).0),
        next(v, e).0.provider == v.provider,
{
}

/// The language a job was created with reaches Whisper and Deepgram
/// unchanged when the audio is handed over for transcription; Parakeet gets
/// none.
pub proof fn lemma_language_reaches_engine(v: JobView)
    requires
        v.stage == JobStage::AnnouncedProcessing,
    ensures
        v.provider != TranscriptionProviderType::Parakeet ==> next(v, EventView::Proceed).1
            == ActionView::Transcribe(v.provider, v.language),
        v.provider == TranscriptionProviderType::Parakeet ==> next(v, EventView::Proceed).1
            == ActionView::Transcribe(v.provider, None),
        next(v, EventView::Proceed).0.stage == JobStage::Transcribing,
{
}

/// The way through the file: the job first announces loading at 0%, then
/// asks for validation; a failed validation ends it with "File validation
/// failed: " and the error, a passed one announces decoding at 20% and asks
/// for the audio; failed loading ends it with "Failed to load audio: " and
/// the error, loaded audio announces preparation at 40%.
pub proof fn lemma_job_file_stages(v: JobView, e: EventView)
    requires
        accepts(v.stage, e),
    ensures
        v.stage == JobStage::Created ==> next(v, e).1 == ActionView::Emit(
            (ProgressView { stage: "loading"@, progress: 0, message: "Loading audio file..."@ }),
        ),
        v.stage == JobStage::AnnouncedLoading ==> next(v, e).1 == ActionView::ValidateFile,
        v.stage == JobStage::Validating && e == EventView::FileChecked(Ok(())) ==> next(v, e).1
            == ActionView::Emit(
            (ProgressView { stage: "loading"@, progress: 20, message: "Decoding audio..."@ }),
        ),
        v.stage == JobStage::Validating ==> (e matches EventView::FileChecked(Err(m)) ==> next(
            v,
            e,
        ).1 == ActionView::Finish(Err("File validation failed: "@ + m))),
        v.stage == JobStage::AnnouncedDecoding ==> next(v, e).1 == ActionView::LoadAudio,
        v.stage == JobStage::Loading && e == EventView::AudioLoaded(Ok(())) ==> next(v, e).1
            == ActionView::Emit(
            (ProgressView {
                stage: "processing"@,
                progress: 40,
                message: "Preparing for transcription..."@,
            }),
        ),
        v.stage == JobStage::Loading ==> (e matches EventView::AudioLoaded(Err(m)) ==> next(
            v,
            e,
        ).1 == ActionView::Finish(Err("Failed to load audio: "@ + m))),
{
}

/// The engine stages: the job announces transcription at 50% with the
/// provider's message, asks whether the engine exists, then whether it is
/// ready, and ends with the provider's error where either is not so; a
/// ready engine is announced at 60%.
pub proof fn lemma_job_engine_stages(v: JobView, e: EventView)
    requires
        accepts(v.stage, e),
    ensures
        v.stage == JobStage::AnnouncedPreparing ==> next(v, e).1 == ActionView::Emit(
            (ProgressView {
                stage: "transcribing"@,
                progress: 50,
                message: (if v.provider == TranscriptionProviderType::Whisper {
                    "Transcribing with Whisper..."@
                } else if v.provider == TranscriptionProviderType::Parakeet {
                    "Transcribing with Parakeet..."@
                } else {
                    "Sending to Deepgram API..."@
                }),
            }),
        ),
        v.stage == JobStage::AnnouncedTranscribing ==> next(v, e).1 == ActionView::CheckEngine(
            v.provider,
        ),
        v.stage == JobStage::CheckingEngine && e == EventView::EngineFound(true) ==> next(v, e).1
            == ActionView::CheckReady(v.provider),
        v.stage == JobStage::CheckingEngine && e == EventView::EngineFound(false) ==> next(v, e).1
            == ActionView::Finish(
            Err(
                (if v.provider == TranscriptionProviderType::Whisper {
                    "Whisper engine not initialized. Please initialize Whisper first."@
                } else if v.provider == TranscriptionProviderType::Parakeet {
                    "Parakeet engine not initialized. Please initialize Parakeet first."@
                } else {
                    "Deepgram provider not initialized. Please initialize Deepgram first."@
                }),
            ),
        ),
        v.stage == JobStage::CheckingReady && e == EventView::EngineReady(true) ==> next(v, e).1
            == ActionView::Emit(
            (ProgressView {
                stage: "transcribing"@,
                progress: 60,
                message: (if v.provider == TranscriptionProviderType::Deepgram {
                    "Processing with Deepgram..."@
                } else {
                    "Processing audio..."@
                }),
            }),
        ),
        v.stage == JobStage::CheckingReady && e == EventView::EngineReady(false) ==> next(v, e).1
            == ActionView::Finish(
            Err(
                (if v.provider == TranscriptionProviderType::Whisper {
                    "Whisper model not loaded. Please load a model first."@
                } else if v.provider == TranscriptionProviderType::Parakeet {
                    "Parakeet model not loaded. Please load a model first."@
                } else {
                    "Deepgram API key not configured. Please set your API key first."@
                }),
            ),
        ),
{
}

/// The last stages: a transcript is kept and the model asked for; a failed
/// transcription ends the job with the provider's prefix and the error;
/// the model name is kept and "Finalizing..." announced at 90%, then
/// completion at 100%; the job then finishes with the transcript it got,
/// the provider's name and the model it was told.
pub proof fn lemma_job_result_stages(v: JobView, e: EventView)
    requires
        accepts(v.stage, e),
    ensures
        v.stage == JobStage::Transcribing ==> (e matches EventView::TranscriptReady(Ok(t)) ==> next(
            v,
            e,
        ).1 == ActionView::QueryModel(v.provider) && next(v, e).0.text == Some(t)),
        v.stage == JobStage::Transcribing ==> (e matches EventView::TranscriptReady(Err(m)) ==> next(
            v,
            e,
        ).1 == ActionView::Finish(
            Err(
                (if v.provider == TranscriptionProviderType::Whisper {
                    "Whisper transcription failed: "@
                } else if v.provider == TranscriptionProviderType::Parakeet {
                    "Parakeet transcription failed: "@
                } else {
                    "Deepgram transcription failed: "@
                }) + m,
            ),
        )),
        v.stage == JobStage::QueryingModel ==> (e matches EventView::ModelName(m) ==> next(v, e).1
            == ActionView::Emit(
            (ProgressView { stage: "transcribing"@, progress: 90, message: "Finalizing..."@ }),
        ) && next(v, e).0.model == m && next(v, e).0.text == v.text),
        v.stage == JobStage::AnnouncedFinalizing ==> next(v, e).1 == ActionView::Emit(
            (ProgressView { stage: "complete"@, progress: 100, message: "Transcription complete!"@ }),
        ),
        v.stage == JobStage::AnnouncedComplete ==> (v.text matches Some(t) ==> next(v, e).1
            == ActionView::Finish(
            Ok(
                (OutputView {
                    text: t,
                    provider: (if v.provider == TranscriptionProviderType::Whisper {
                        "whisper"@
                    } else if v.provider == TranscriptionProviderType::Parakeet {
                        "parakeet"@
                    } else {
                        "deepgram"@
                    }),
                    model: v.model,
                }),
            ),
        )),
        next(v, e).0.language == v.language,
{
}

fn start_message_str(p: TranscriptionProviderType) -> (s: &'static str)
    ensures
        s@ == start_message(p),
{
    match p {
        TranscriptionProviderType::Whisper => "Transcribing with Whisper...",
        TranscriptionProviderType::Parakeet => "Transcribing with Parakeet...",
        TranscriptionProviderType::Deepgram => "Sending to Deepgram API...",
    }
}

fn processing_message_str(p: TranscriptionProviderType) -> (s: &'static str)
    ensures
        s@ == processing_message(p),
{
    match p {
        TranscriptionProviderType::Deepgram => "Processing with Deepgram...",
        _ => "Processing audio...",
    }
}

fn missing_engine_str(p: TranscriptionProviderType) -> (s: &'static str)
    ensures
        s@ == missing_engine_error(p),
{
    match p {
        TranscriptionProviderType::Whisper => "Whisper engine not initialized. Please initialize Whisper first.",
        TranscriptionProviderType::Parakeet => "Parakeet engine not initialized. Please initialize Parakeet first.",
        TranscriptionProviderType::Deepgram => "Deepgram provider not initialized. Please initialize Deepgram first.",
    }
}

fn not_ready_str(p: TranscriptionProviderType) -> (s: &'static str)
    ensures
        s@ == not_ready_error(p),
{
    match p {
        TranscriptionProviderType::Whisper => "Whisper model not loaded. Please load a model first.",
        TranscriptionProviderType::Parakeet => "Parakeet model not loaded. Please load a model first.",
        TranscriptionProviderType::Deepgram => "Deepgram API key not configured. Please set your API key first.",
    }
}

fn failure_prefix_str(p: TranscriptionProviderType) -> (s: &'static str)
    ensures
        s@ == failure_prefix(p),
{
    match p {
        TranscriptionProviderType::Whisper => "Whisper transcription failed: ",
        TranscriptionProviderType::Parakeet => "Parakeet transcription failed: ",
        TranscriptionProviderType::Deepgram => "Deepgram transcription failed: ",
    }
}

fn clone_opt(o: &Option<String>) -> (res: Option<String>)
    ensures
        opt_str(res) == opt_str(*o),
{
    match o {
        Some(s) => Some(s.clone()),
        None => None,
    }
}

fn emit(stage: &str, percent: u8, message: &str) -> (a: JobAction)
    ensures
        a@ == ActionView::Emit(progress(stage@, percent, message@)),
{
    JobAction::Emit(TranscriptionProgress::new(stage, percent, message))
}

fn fail_with(prefix: &str, msg: &str) -> (a: JobAction)
    ensures
        a@ == ActionView::Finish(Err(prefix@ + msg@)),
{
    JobAction::Finish(Err(String::from_str(prefix).concat(msg)))
}

fn fail(msg: &str) -> (a: JobAction)
    ensures
        a@ == ActionView::Finish(Err(msg@)),
{
    JobAction::Finish(Err(String::from_str(msg)))
}

impl TranscriptionJob {
    #[verifier::type_invariant]
    spec fn wf(&self) -> bool {
        job_wf(self@)
    }

    /// A job that transcribes a file with `provider`, in `language` where
    /// one is given.
    pub fn new(provider: TranscriptionProviderType, language: Option<String>) -> (j: Self)
        ensures
            j@ == (JobView {
                provider,
                language: opt_str(language),
                stage: JobStage::Created,
                text: None,
                model: None,
            }),
    {
        TranscriptionJob { provider, language, stage: JobStage::Created, text: None, model: None }
    }

    /// Where the job stands.
    pub fn stage(&self) -> (s: JobStage)
        ensures
            s == self@.stage,
    {
        self.stage
    }

    /// Whether the job waits for `event`.
    pub fn accepts(&self, event: &JobEvent) -> (res: bool)
        ensures
            res == accepts(self@.stage, event@),
    {
        match self.stage {
            JobStage::Validating => matches!(event, JobEvent::FileChecked(_)),
            JobStage::Loading => matches!(event, JobEvent::AudioLoaded(_)),
            JobStage::CheckingEngine => matches!(event, JobEvent::EngineFound(_)),
            JobStage::CheckingReady => matches!(event, JobEvent::EngineReady(_)),
            JobStage::Transcribing => matches!(event, JobEvent::TranscriptReady(_)),
            JobStage::QueryingModel => matches!(event, JobEvent::ModelName(_)),
            JobStage::Done => false,
            _ => matches!(event, JobEvent::Proceed),
        }
    }

    /// Takes the event the job waits for and gives the next action.
    pub fn step(&mut self, event: JobEvent) -> (a: JobAction)
        requires
            accepts(old(self)@.stage, event@),
        ensures
            final(self)@ == next(old(self)@, event@).0,
            a@ == next(old(self)@, event@).1,
    {
        proof {
            use_type_invariant(&*self);
        }
        let p = self.provider;
        match self.stage {
            JobStage::Created => {
                self.stage = JobStage::AnnouncedLoading;
                emit("loading", 0, "Loading audio file...")
            },
            JobStage::AnnouncedLoading => {
                self.stage = JobStage::Validating;
                JobAction::ValidateFile
            },
            JobStage::Validating => {
                match event {
                    JobEvent::FileChecked(Err(msg)) => {
                        self.stage = JobStage::Done;
                        fail_with("File validation failed: ", msg.as_str())
                    },
                    _ => {
                        self.stage = JobStage::AnnouncedDecoding;
                        emit("loading", 20, "Decoding audio...")
                    },
                }
            },
            JobStage::AnnouncedDecoding => {
                self.stage = JobStage::Loading;
                JobAction::LoadAudio
            },
            JobStage::Loading => {
                match event {
                    JobEvent::AudioLoaded(Err(msg)) => {
                        self.stage = JobStage::Done;
                        fail_with("Failed to load audio: ", msg.as_str())
                    },
                    _ => {
                        self.stage = JobStage::AnnouncedPreparing;
                        emit("processing", 40, "Preparing for transcription...")
                    },
                }
            },
            JobStage::AnnouncedPreparing => {
                self.stage = JobStage::AnnouncedTranscribing;
                emit("transcribing", 50, start_message_str(p))
            },
            JobStage::AnnouncedTranscribing => {
                self.stage = JobStage::CheckingEngine;
                JobAction::CheckEngine(p)
            },
            JobStage::CheckingEngine => {
                match event {
                    JobEvent::EngineFound(true) => {
                        self.stage = JobStage::CheckingReady;
                        JobAction::CheckReady(p)
                    },
                    _ => {
                        self.stage = JobStage::Done;
                        fail(missing_engine_str(p))
                    },
                }
            },
            JobStage::CheckingReady => {
                match event {
                    JobEvent::EngineReady(true) => {
                        self.stage = JobStage::AnnouncedProcessing;
                        emit("transcribing", 60, processing_message_str(p))
                    },
                    _ => {
                        self.stage = JobStage::Done;
                        fail(not_ready_str(p))
                    },
                }
            },
            JobStage::AnnouncedProcessing => {
                self.stage = JobStage::Transcribing;
                let language = match p {
                    TranscriptionProviderType::Parakeet => None,
                    _ => clone_opt(&self.language),
                };
                JobAction::Transcribe { provider: p, language }
            },
            JobStage::Transcribing => {
                match event {
                    JobEvent::TranscriptReady(Ok(text)) => {
                        self.text = Some(text);
                        self.stage = JobStage::QueryingModel;
                        JobAction::QueryModel(p)
                    },
                    JobEvent::TranscriptReady(Err(msg)) => {
                        self.stage = JobStage::Done;
                        fail_with(failure_prefix_str(p), msg.as_str())
                    },
                    _ => {
                        self.stage = JobStage::Done;
                        fail(failure_prefix_str(p))
                    },
                }
            },
            JobStage::QueryingModel => {
                if let JobEvent::ModelName(m) = event {
                    self.model = m;
                }
                self.stage = JobStage::AnnouncedFinalizing;
                emit("transcribing", 90, "Finalizing...")
            },
            JobStage::AnnouncedFinalizing => {
                self.stage = JobStage::AnnouncedComplete;
                emit("complete", 100, "Transcription complete!")
            },
            JobStage::AnnouncedComplete => {
                let text = match &self.text {
                    Some(t) => t.clone(),
                    None => String::new(),
                };
                let output = JobOutput {
                    text,
                    provider: p.to_string(),
                    model: clone_opt(&self.model),
                };
                self.stage = JobStage::Done;
                JobAction::Finish(Ok(output))
            },
            JobStage::Done => JobAction::Finish(Err(String::new())),
        }
    }
}

} // verus!
