//! Verified core of a file-transcription feature: validating audio files,
//! encoding PCM audio as WAV, preparing Deepgram requests, and driving a
//! transcription job through its progress stages.

pub mod commands;
pub mod deepgram;
pub mod wav;
pub mod errors;
pub mod url_query;
pub mod audio_file;
pub mod job;
