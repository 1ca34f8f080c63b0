//! Decisions taken when an audio file is validated and decoded: which
//! extensions are accepted, what is reported of a probed file, how its
//! duration is estimated, and how its packets are handled.
use vstd::prelude::*;

verus! {

/// Supported audio file extensions
pub const SUPPORTED_EXTENSIONS: [&'static str; 10] = [
    "mp3",
    "wav",
    "m4a",
    "mp4",
    "ogg",
    "flac",
    "webm",
    "aac",
    "wma",
    "opus",
];

/// Target sample rate for transcription (Whisper expects 16kHz)
pub const TARGET_SAMPLE_RATE: u32 = 16000;

/// The extension (already lowercased) is one of the supported ones.
pub open spec fn supported_extension(ext: Seq<char>) -> bool {
    exists|j: int| 0 <= j < 10 && #[trigger] SUPPORTED_EXTENSIONS@[j]@ == ext
}

/// Whether `ext` is one of the supported extensions (compared exactly).
pub fn is_supported_extension(ext: &str) -> (res: bool)
    ensures
        res == supported_extension(ext@),
{
    let e = String::from_str(ext);
    let mut i: usize = 0;
    while i < 10
        invariant
            i <= 10,
            e@ == ext@,
            forall|j: int| 0 <= j < i ==> #[trigger] SUPPORTED_EXTENSIONS@[j]@ != ext@,
        decreases 10 - i,
    {
        if String::from_str(SUPPORTED_EXTENSIONS[i]) == e {
            return true;
        }
        i = i + 1;
    }
    false
}


/// What `str::to_lowercase` returns for `s`.
pub uninterp spec fn lowercase(s: Seq<char>) -> Seq<char>;

/// Calls `str::to_lowercase`. Claimed: the result is `lowercase(s)`.
#[verifier::external_body]
fn to_lowercase(s: &str) -> (res: String)
    ensures
        res@ == lowercase(s@),
{
    s.to_lowercase()
}

/// Why an audio file was refused.
pub enum AudioFileError {
    /// The path has no extension (or one that is not UTF-8).
    NoExtension,
    /// The (lowercased) extension is not a supported one.
    UnsupportedFormat(String),
    /// Probing found no default track.
    NoAudioTracks,
    /// The default track does not give its sample rate.
    UnknownSampleRate,
    /// Decoding found no default track.
    NoTrackToDecode,
}

/// The supported extensions, joined by ", ", from the first `n`.
pub open spec fn joined_extensions(n: int) -> Seq<char>
    decreases n,
{
    if n <= 0 {
        Seq::empty()
    } else if n == 1 {
        SUPPORTED_EXTENSIONS@[0]@
    } else {
        joined_extensions(n - 1) + ", "@ + SUPPORTED_EXTENSIONS@[n - 1]@
    }
}

/// The text of each error.
pub open spec fn audio_error_message(e: AudioFileError) -> Seq<char> {
    match e {
        AudioFileError::NoExtension => "File has no extension"@,
        AudioFileError::UnsupportedFormat(ext) => "Unsupported audio format: ."@ + ext@
            + ". Supported formats: "@ + joined_extensions(10),
        AudioFileError::NoAudioTracks => "No audio tracks found in file"@,
        AudioFileError::UnknownSampleRate => "Could not determine sample rate"@,
        AudioFileError::NoTrackToDecode => "No audio tracks found"@,
    }
}

/// The error texts: the unsupported-format text names the extension and
/// lists the ten supported formats in order, separated by ", ".
pub proof fn lemma_audio_error_messages(ext: String)
    ensures
        audio_error_message(AudioFileError::UnsupportedFormat(ext)) == "Unsupported audio format: ."@
            + ext@ + ". Supported formats: "@ + "mp3"@ + ", "@ + "wav"@ + ", "@ + "m4a"@ + ", "@
            + "mp4"@ + ", "@ + "ogg"@ + ", "@ + "flac"@ + ", "@ + "webm"@ + ", "@ + "aac"@ + ", "@
            + "wma"@ + ", "@ + "opus"@,
        audio_error_message(AudioFileError::NoExtension) == "File has no extension"@,
        audio_error_message(AudioFileError::NoAudioTracks) == "No audio tracks found in file"@,
        audio_error_message(AudioFileError::UnknownSampleRate) == "Could not determine sample rate"@,
        audio_error_message(AudioFileError::NoTrackToDecode) == "No audio tracks found"@,
{
    reveal_with_fuel(joined_extensions, 11);
}

impl AudioFileError {
    /// The error's text.
    pub fn message(&self) -> (res: String)
        ensures
            res@ == audio_error_message(*self),
    {
        match self {
            AudioFileError::NoExtension => String::from_str("File has no extension"),
            AudioFileError::UnsupportedFormat(ext) => {
                let mut list = String::from_str(SUPPORTED_EXTENSIONS[0]);
                let mut i: usize = 1;
                while i < 10
                    invariant
                        1 <= i <= 10,
                        list@ == joined_extensions(i as int),
                    decreases 10 - i,
                {
                    list = list.concat(", ").concat(SUPPORTED_EXTENSIONS[i]);
                    i = i + 1;
                }
                String::from_str("Unsupported audio format: .").concat(ext.as_str()).concat(
                    ". Supported formats: ",
                ).concat(list.as_str())
            },
            AudioFileError::NoAudioTracks => String::from_str("No audio tracks found in file"),
            AudioFileError::UnknownSampleRate => String::from_str("Could not determine sample rate"),
            AudioFileError::NoTrackToDecode => String::from_str("No audio tracks found"),
        }
    }
}

/// An audio file error as plain values.
pub enum AudioErrorView {
    NoExtension,
    UnsupportedFormat(Seq<char>),
    NoAudioTracks,
    UnknownSampleRate,
    NoTrackToDecode,
}

impl View for AudioFileError {
    type V = AudioErrorView;

    open spec fn view(&self) -> AudioErrorView {
        match self {
            AudioFileError::NoExtension => AudioErrorView::NoExtension,
            AudioFileError::UnsupportedFormat(e) => AudioErrorView::UnsupportedFormat(e@),
            AudioFileError::NoAudioTracks => AudioErrorView::NoAudioTracks,
            AudioFileError::UnknownSampleRate => AudioErrorView::UnknownSampleRate,
            AudioFileError::NoTrackToDecode => AudioErrorView::NoTrackToDecode,
        }
    }
}

/// What the extension check gives for an optional extension.
pub open spec fn extension_verdict(extension: Option<Seq<char>>) -> Result<Seq<char>, AudioErrorView> {
    match extension {
        None => Err(AudioErrorView::NoExtension),
        Some(e) => if supported_extension(lowercase(e)) {
            Ok(lowercase(e))
        } else {
            Err(AudioErrorView::UnsupportedFormat(lowercase(e)))
        },
    }
}

/// The view of an extension check's result.
pub open spec fn checked_extension(res: Result<String, AudioFileError>) -> Result<
    Seq<char>,
    AudioErrorView,
> {
    match res {
        Ok(s) => Ok(s@),
        Err(e) => Err(e@),
    }
}

/// The supported extensions are exactly "mp3", "wav", "m4a", "mp4", "ogg",
/// "flac", "webm", "aac", "wma" and "opus".
pub proof fn lemma_supported_extensions(e: Seq<char>)
    ensures
        supported_extension(e) <==> (e == "mp3"@ || e == "wav"@ || e == "m4a"@ || e == "mp4"@ || e
            == "ogg"@ || e == "flac"@ || e == "webm"@ || e == "aac"@ || e == "wma"@ || e == "opus"@),
{
    if e == "mp3"@ { assert(SUPPORTED_EXTENSIONS@[0]@ == e); }
    if e == "wav"@ { assert(SUPPORTED_EXTENSIONS@[1]@ == e); }
    if e == "m4a"@ { assert(SUPPORTED_EXTENSIONS@[2]@ == e); }
    if e == "mp4"@ { assert(SUPPORTED_EXTENSIONS@[3]@ == e); }
    if e == "ogg"@ { assert(SUPPORTED_EXTENSIONS@[4]@ == e); }
    if e == "flac"@ { assert(SUPPORTED_EXTENSIONS@[5]@ == e); }
    if e == "webm"@ { assert(SUPPORTED_EXTENSIONS@[6]@ == e); }
    if e == "aac"@ { assert(SUPPORTED_EXTENSIONS@[7]@ == e); }
    if e == "wma"@ { assert(SUPPORTED_EXTENSIONS@[8]@ == e); }
    if e == "opus"@ { assert(SUPPORTED_EXTENSIONS@[9]@ == e); }
}

/// A path without an extension is refused as such; an extension is
/// accepted exactly when its lowercase form is a supported one, and then
/// the lowercase form is the format; otherwise the lowercase form is
/// reported as unsupported.
pub proof fn lemma_extension_verdict(e: Seq<char>)
    ensures
        extension_verdict(None) == Err::<Seq<char>, AudioErrorView>(AudioErrorView::NoExtension),
        extension_verdict(Some(e)) is Ok <==> supported_extension(lowercase(e)),
        extension_verdict(Some(e)) matches Ok(f) ==> f == lowercase(e),
        !supported_extension(lowercase(e)) ==> extension_verdict(Some(e)) == Err::<
            Seq<char>,
            AudioErrorView,
        >(AudioErrorView::UnsupportedFormat(lowercase(e))),
{
}

/// The view of an optional borrowed string.
pub open spec fn opt_text(o: Option<&str>) -> Option<Seq<char>> {
    match o {
        Some(s) => Some(s@),
        None => None,
    }
}

/// Checks a file's extension: `None` where the path has none; else the
/// lowercased extension, which must be a supported one.
pub fn check_extension(extension: Option<&str>) -> (res: Result<String, AudioFileError>)
    ensures
        checked_extension(res) == extension_verdict(opt_text(extension)),
{
    match extension {
        None => Err(AudioFileError::NoExtension),
        Some(e) => {
            let lower = to_lowercase(e);
            if is_supported_extension(lower.as_str()) {
                Ok(lower)
            } else {
                Err(AudioFileError::UnsupportedFormat(lower))
            }
        },
    }
}

/// What probing a file tells of its default track, as plain values.
pub struct ProbedTrack {
    pub sample_rate: Option<u32>,
    /// Number of channels, where the codec gives them.
    pub channels: Option<usize>,
    pub n_frames: Option<u64>,
    pub bits_per_sample: Option<u32>,
}

/// How a file's duration in seconds is computed.
pub enum DurationEstimate {
    /// `n_frames / sample_rate`.
    FrameCount { n_frames: u64, sample_rate: u32 },
    /// `file_size_bytes / bytes_per_second`, where bytes per second is
    /// `sample_rate * channels * bits_per_sample / 8`.
    FileSize { file_size_bytes: u64, sample_rate: u32, channels: u16, bits_per_sample: u32 },
    /// No estimate: the duration is reported as zero.
    Unknown,
}

/// The duration in seconds as a fraction (numerator, denominator).
pub open spec fn duration_ratio(d: DurationEstimate) -> (int, int) {
    match d {
        DurationEstimate::FrameCount { n_frames, sample_rate } => (n_frames as int, sample_rate as int),
        DurationEstimate::FileSize { file_size_bytes, sample_rate, channels, bits_per_sample } => (
            8 * file_size_bytes,
            sample_rate * channels * bits_per_sample,
        ),
        DurationEstimate::Unknown => (0, 1),
    }
}

/// Information about an audio file, with its duration as an estimate.
pub struct AudioFileFacts {
    pub sample_rate: u32,
    pub channels: u16,
    /// File format (the lowercased extension)
    pub format: String,
    pub file_size_bytes: u64,
    pub duration: DurationEstimate,
}

/// The number of channels reported: the codec's count (truncated to
/// 16 bits), or 2 where it gives none.
pub open spec fn reported_channels(t: ProbedTrack) -> u16 {
    match t.channels {
        Some(c) => c as u16,
        None => 2,
    }
}

/// The estimate of a track's duration: from the frame count where known,
/// else from the file size (16 bits per sample where unknown), which gives
/// no estimate where the byte rate is zero.
pub open spec fn estimate_for(t: ProbedTrack, sample_rate: u32, file_size_bytes: u64) -> DurationEstimate {
    match t.n_frames {
        Some(n) => DurationEstimate::FrameCount { n_frames: n, sample_rate },
        None => {
            let bits = match t.bits_per_sample {
                Some(b) => b,
                None => 16,
            };
            let channels = reported_channels(t);
            if sample_rate == 0 || channels == 0 || bits == 0 {
                DurationEstimate::Unknown
            } else {
                DurationEstimate::FileSize {
                    file_size_bytes,
                    sample_rate,
                    channels,
                    bits_per_sample: bits,
                }
            }
        },
    }
}

/// A duration estimate is never negative, and one from the file size
/// divides by a positive byte rate.
pub proof fn lemma_duration_estimate(t: ProbedTrack, sample_rate: u32, file_size_bytes: u64)
    ensures
        duration_ratio(estimate_for(t, sample_rate, file_size_bytes)).0 >= 0,
        estimate_for(t, sample_rate, file_size_bytes) is FileSize ==> duration_ratio(
            estimate_for(t, sample_rate, file_size_bytes),
        ).1 > 0,
{
    if let DurationEstimate::FileSize { sample_rate: r, channels: c, bits_per_sample: b, .. } =
        estimate_for(t, sample_rate, file_size_bytes) {
        assert(r * c * b > 0) by (nonlinear_arith)
            requires
                r > 0,
                c > 0,
                b > 0,
        ;
    }
}

/// Where the track gives its frame count `n`, the duration is `n` frames
/// at the sample rate, whatever the channels and bits per sample. Without
/// a frame count, the duration comes from the file size at the byte rate of
/// the sample rate, the channel count (2 where unknown, truncated to 16
/// bits) and the bits per sample (16 where unknown); it is unknown where
/// one of these is zero.
pub proof fn lemma_duration_source(t: ProbedTrack, sample_rate: u32, file_size_bytes: u64)
    ensures
        t.n_frames matches Some(n) ==> estimate_for(t, sample_rate, file_size_bytes) == (
        DurationEstimate::FrameCount { n_frames: n, sample_rate }),
        t.n_frames matches Some(n) ==> duration_ratio(estimate_for(t, sample_rate, file_size_bytes))
            == (n as int, sample_rate as int),
        reported_channels(t) == (if t.channels is Some {
            (t.channels->0) as u16
        } else {
            2u16
        }),
        t.n_frames is None ==> (estimate_for(t, sample_rate, file_size_bytes) is Unknown <==> (
        sample_rate == 0 || reported_channels(t) == 0 || (t.bits_per_sample == Some(0u32)))),
        t.n_frames is None && !(estimate_for(t, sample_rate, file_size_bytes) is Unknown) ==> (
        estimate_for(t, sample_rate, file_size_bytes) == (DurationEstimate::FileSize {
            file_size_bytes,
            sample_rate,
            channels: reported_channels(t),
            bits_per_sample: (if t.bits_per_sample is Some {
                t.bits_per_sample->0
            } else {
                16u32
            }),
        })),
        t.n_frames is None && !(estimate_for(t, sample_rate, file_size_bytes) is Unknown) ==> (
        duration_ratio(estimate_for(t, sample_rate, file_size_bytes)).0 == 8 * file_size_bytes),
{
}

/// Describes a probed file of format `format` and `file_size_bytes` bytes
/// from its default track: refused where there is no track or the track
/// gives no sample rate.
pub fn describe_probed_file(format: String, file_size_bytes: u64, track: Option<ProbedTrack>) -> (res:
    Result<AudioFileFacts, AudioFileError>)
    ensures
        match track {
            None => res matches Err(AudioFileError::NoAudioTracks),
            Some(t) => match t.sample_rate {
                None => res matches Err(AudioFileError::UnknownSampleRate),
                Some(rate) => res matches Ok(f) && f.sample_rate == rate && f.channels
                    == reported_channels(t) && f.format@ == format@ && f.file_size_bytes
                    == file_size_bytes && f.duration == estimate_for(t, rate, file_size_bytes),
            },
        },
{
    let t = match track {
        Some(t) => t,
        None => {
            return Err(AudioFileError::NoAudioTracks);
        },
    };
    let sample_rate = match t.sample_rate {
        Some(r) => r,
        None => {
            return Err(AudioFileError::UnknownSampleRate);
        },
    };
    let channels: u16 = match t.channels {
        Some(c) => c as u16,
        None => 2,
    };
    let duration = match t.n_frames {
        Some(n) => DurationEstimate::FrameCount { n_frames: n, sample_rate },
        None => {
            let bits: u32 = match t.bits_per_sample {
                Some(b) => b,
                None => 16,
            };
            if sample_rate == 0 || channels == 0 || bits == 0 {
                DurationEstimate::Unknown
            } else {
                DurationEstimate::FileSize {
                    file_size_bytes,
                    sample_rate,
                    channels,
                    bits_per_sample: bits,
                }
            }
        },
    };
    Ok(AudioFileFacts { sample_rate, channels, format, file_size_bytes, duration })
}


/// How the decoded audio of a track is brought to 16 kHz mono.
pub struct DecodePlan {
    /// Channels interleaved in the decoded samples.
    pub source_channels: usize,
    pub source_sample_rate: u32,
    /// The channels are averaged into one.
    pub downmix: bool,
    /// The samples are resampled to the target rate.
    pub resample: bool,
}

/// A decode plan as plain values: channels, rate, downmix, resample.
pub open spec fn plan_view(p: DecodePlan) -> (usize, u32, bool, bool) {
    (p.source_channels, p.source_sample_rate, p.downmix, p.resample)
}

/// The plan for a track: refused without a sample rate; else the codec's
/// channel count (2 where unknown), the rate, averaging where there is more
/// than one channel, and resampling where the rate is not the target.
pub open spec fn planned_decode(t: ProbedTrack) -> Result<(usize, u32, bool, bool), AudioErrorView> {
    match t.sample_rate {
        None => Err(AudioErrorView::UnknownSampleRate),
        Some(rate) => {
            let ch: usize = match t.channels {
                Some(c) => c,
                None => 2,
            };
            Ok((ch, rate, ch > 1, rate != TARGET_SAMPLE_RATE))
        },
    }
}

/// Decoding is refused exactly where the track has no sample rate; a
/// planned decode averages exactly the audio of more than one channel
/// (two where the count is unknown), resamples exactly where the rate is
/// not 16000, and keeps the track's rate.
pub proof fn lemma_decode_plan(t: ProbedTrack)
    ensures
        planned_decode(t) is Err <==> t.sample_rate is None,
        t.sample_rate is None ==> planned_decode(t) == Err::<(usize, u32, bool, bool), AudioErrorView>(
            AudioErrorView::UnknownSampleRate,
        ),
        t.sample_rate matches Some(r) ==> (planned_decode(t) matches Ok(p) && p.1 == r && p.3 == (r
            != 16000) && (t.channels matches Some(c) ==> p.0 == c && p.2 == (c > 1)) && (
        t.channels is None ==> p.0 == 2 && p.2)),
{
}

/// Plans the decoding of a track: refused without a sample rate; the
/// channel count defaults to 2; more than one channel is averaged to
/// mono, and a rate other than 16 kHz is resampled.
pub fn decode_plan(track: &ProbedTrack) -> (res: Result<DecodePlan, AudioFileError>)
    ensures
        match res {
            Ok(p) => Ok(plan_view(p)),
            Err(e) => Err(e@),
        } == planned_decode(*track),
{
    let rate = match track.sample_rate {
        Some(r) => r,
        None => {
            return Err(AudioFileError::UnknownSampleRate);
        },
    };
    let source_channels: usize = match track.channels {
        Some(c) => c,
        None => 2,
    };
    Ok(
        DecodePlan {
            source_channels,
            source_sample_rate: rate,
            downmix: source_channels > 1,
            resample: rate != TARGET_SAMPLE_RATE,
        },
    )
}

/// What happened to the packet being handled.
pub enum PacketEvent {
    /// Reading found the end of the stream.
    EndOfStream,
    /// Reading failed.
    ReadFailed,
    /// A packet of the given track was read.
    Packet { track_id: u32 },
    /// Decoding the packet failed.
    DecodeFailed,
    /// The packet was decoded.
    Decoded,
}

/// What is done next.
#[derive(Debug, PartialEq, Eq, Structural)]
pub enum PacketAction {
    /// Decoding ends.
    Stop,
    /// The packet is passed over and the next one read.
    Skip,
    /// The packet is decoded.
    Decode,
    /// The decoded samples are added to the audio.
    Append,
}

/// What is done after `event` while decoding track `track_id`.
pub open spec fn packet_decision(event: PacketEvent, track_id: u32) -> PacketAction {
    match event {
        PacketEvent::EndOfStream => PacketAction::Stop,
        PacketEvent::ReadFailed => PacketAction::Stop,
        PacketEvent::Packet { track_id: t } => if t == track_id {
            PacketAction::Decode
        } else {
            PacketAction::Skip
        },
        PacketEvent::DecodeFailed => PacketAction::Skip,
        PacketEvent::Decoded => PacketAction::Append,
    }
}

/// Decoding stops only at the end of the stream or a read error; a read
/// packet is decoded exactly when it belongs to the track and passed over
/// otherwise; a packet that fails to decode is passed over, and decoded
/// audio is appended.
pub proof fn lemma_packet_decisions(event: PacketEvent, track_id: u32, other: u32)
    ensures
        packet_decision(event, track_id) == PacketAction::Stop <==> (event is EndOfStream
            || event is ReadFailed),
        packet_decision(PacketEvent::Packet { track_id }, track_id) == PacketAction::Decode,
        other != track_id ==> packet_decision(PacketEvent::Packet { track_id: other }, track_id)
            == PacketAction::Skip,
        packet_decision(PacketEvent::DecodeFailed, track_id) == PacketAction::Skip,
        packet_decision(PacketEvent::Decoded, track_id) == PacketAction::Append,
{
}

/// Decoding stops at the end of the stream or on a read error, passes over
/// packets of other tracks than `track_id` and packets that fail to decode,
/// decodes the packets of the track, and adds what they decode to.
pub fn packet_action(event: PacketEvent, track_id: u32) -> (a: PacketAction)
    ensures
        a == packet_decision(event, track_id),
{
    match event {
        PacketEvent::EndOfStream => PacketAction::Stop,
        PacketEvent::ReadFailed => PacketAction::Stop,
        PacketEvent::Packet { track_id: t } => if t == track_id {
            PacketAction::Decode
        } else {
            PacketAction::Skip
        },
        PacketEvent::DecodeFailed => PacketAction::Skip,
        PacketEvent::Decoded => PacketAction::Append,
    }
}

} // verus!
