# file_transcription

Transcription of pre-recorded audio files, with its decisions verified by Verus.

- `src/` — the verified library:
  - `audio_file.rs`: accepted extensions, what a probed file reports (rate,
    channels, format, size, duration estimate), decoding decisions.
  - `wav.rs`: mono 16-bit PCM WAV encoding and the proof that the header and
    payload describe the samples.
  - `deepgram.rs`, `url_query.rs`: provider state and options, the HTTP
    request to Deepgram (endpoint with form-encoded options, token header,
    WAV body), interpretation of failed and successful replies.
  - `commands.rs`, `job.rs`: provider names, progress updates, option
    overrides, the provider list, and the state machine of one transcription
    job with its progress laws.
- `app/` — file and network I/O, audio decoding (symphonia), floating-point
  sample work, shared state, and the commands that run a job.
- `tests/` — tests of the library.
