use vstd::prelude::*;

verus! {

/// Why a transcription engine could not produce a transcript.
pub enum TranscriptionError {
    /// The engine failed; the message says why.
    EngineFailed(String),
    /// The audio holds fewer samples than the engine accepts.
    AudioTooShort { samples: usize, minimum: usize },
}

/// An error as plain values.
pub enum ErrorView {
    EngineFailed(Seq<char>),
    AudioTooShort { samples: usize, minimum: usize },
}

impl View for TranscriptionError {
    type V = ErrorView;

    open spec fn view(&self) -> ErrorView {
        match self {
            TranscriptionError::EngineFailed(m) => ErrorView::EngineFailed(m@),
            TranscriptionError::AudioTooShort { samples, minimum } => ErrorView::AudioTooShort {
                samples: *samples,
                minimum: *minimum,
            },
        }
    }
}

/// `e` is an engine failure whose message is `msg`.
pub open spec fn is_engine_failure(e: TranscriptionError, msg: Seq<char>) -> bool {
    e matches TranscriptionError::EngineFailed(m) && m@ == msg
}

impl TranscriptionError {
    /// An engine failure with the given message.
    pub fn engine_failed(msg: &str) -> (e: TranscriptionError)
        ensures
            is_engine_failure(e, msg@),
    {
        TranscriptionError::EngineFailed(String::from_str(msg))
    }
}

} // verus!
