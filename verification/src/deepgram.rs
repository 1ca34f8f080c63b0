use vstd::prelude::*;
use crate::errors::{TranscriptionError, ErrorView, is_engine_failure};
use crate::url_query::{
    parse_url,
    append_query_pair,
    url_as_string,
    url_error_string,
    parsed_url,
    url_text,
    url_text_with_pair,
    url_error_text,
    takes_query_pairs,
    text_takes_query_pairs,
};
use crate::wav::wav_bytes;

verus! {

/// Deepgram API endpoint.
pub const DEEPGRAM_API_URL: &'static str = "https://api.deepgram.com/v1/listen";

/// Fewest samples that are sent for transcription (0.1 s at 16 kHz).
pub const MIN_TRANSCRIBE_SAMPLES: usize = 1600;

/// Sample rate of the audio that is sent for transcription.
pub const TRANSCRIBE_SAMPLE_RATE: u32 = 16000;

/// Deepgram transcription options.
pub struct DeepgramOptions {
    /// Model to use (e.g., "nova-2", "nova-2-general", "whisper-medium")
    pub model: String,
    /// Language code (e.g., "en", "es", "fr")
    pub language: Option<String>,
    /// Enable speaker diarization
    pub diarize: bool,
    /// Enable punctuation
    pub punctuate: bool,
    /// Enable smart formatting
    pub smart_format: bool,
}

/// The options as plain values.
pub struct OptionsView {
    pub model: Seq<char>,
    pub language: Option<Seq<char>>,
    pub diarize: bool,
    pub punctuate: bool,
    pub smart_format: bool,
}

/// The view of an optional string.
pub open spec fn opt_str(o: Option<String>) -> Option<Seq<char>> {
    match o {
        Some(s) => Some(s@),
        None => None,
    }
}

impl View for DeepgramOptions {
    type V = OptionsView;

    open spec fn view(&self) -> OptionsView {
        OptionsView {
            model: self.model@,
            language: opt_str(self.language),
            diarize: self.diarize,
            punctuate: self.punctuate,
            smart_format: self.smart_format,
        }
    }
}

/// The default options: model "nova-2", language "en", no diarization,
/// punctuation and smart formatting on.
pub open spec fn default_options() -> OptionsView {
    OptionsView {
        model: "nova-2"@,
        language: Some("en"@),
        diarize: false,
        punctuate: true,
        smart_format: true,
    }
}

impl Default for DeepgramOptions {
    fn default() -> (o: Self)
        ensures
            o@ == default_options(),
    {
        DeepgramOptions {
            model: String::from_str("nova-2"),
            language: Some(String::from_str("en")),
            diarize: false,
            punctuate: true,
            smart_format: true,
        }
    }
}

fn clone_opt_string(o: &Option<String>) -> (res: Option<String>)
    ensures
        opt_str(res) == opt_str(*o),
{
    match o {
        Some(s) => Some(s.clone()),
        None => None,
    }
}

impl Clone for DeepgramOptions {
    fn clone(&self) -> (o: Self)
        ensures
            o@ == self@,
    {
        DeepgramOptions {
            model: self.model.clone(),
            language: clone_opt_string(&self.language),
            diarize: self.diarize,
            punctuate: self.punctuate,
            smart_format: self.smart_format,
        }
    }
}

/// State of a Deepgram provider: the API key, if one was set, and the
/// options that requests are made with.
pub struct DeepgramProvider {
    api_key: Option<String>,
    options: DeepgramOptions,
}

/// A provider's state as plain values.
pub struct ProviderView {
    pub api_key: Option<Seq<char>>,
    pub options: OptionsView,
}

impl View for DeepgramProvider {
    type V = ProviderView;

    closed spec fn view(&self) -> ProviderView {
        ProviderView { api_key: opt_str(self.api_key), options: self.options@ }
    }
}

/// An HTTP request to send to Deepgram.
pub struct DeepgramRequest {
    /// The endpoint with the query string of the options.
    pub url: String,
    /// The value of the `Authorization` header.
    pub authorization: String,
    /// The value of the `Content-Type` header.
    pub content_type: String,
    /// The audio that forms the body.
    pub body: Vec<u8>,
}

/// How a boolean option is written in the query string.
pub open spec fn bool_text(b: bool) -> Seq<char> {
    if b {
        "true"@
    } else {
        "false"@
    }
}

/// The query pairs for the options, in the order they are appended.
pub open spec fn query_pairs(o: OptionsView) -> Seq<(Seq<char>, Seq<char>)> {
    let pairs = seq![
        ("model"@, o.model),
        ("punctuate"@, bool_text(o.punctuate)),
        ("diarize"@, bool_text(o.diarize)),
        ("smart_format"@, bool_text(o.smart_format)),
    ];
    match o.language {
        Some(l) => pairs.push(("language"@, l)),
        None => pairs,
    }
}

/// The serialization of a URL after the pairs have been appended in order.
pub open spec fn url_with_pairs(url: Seq<char>, pairs: Seq<(Seq<char>, Seq<char>)>) -> Seq<char>
    decreases pairs.len(),
{
    if pairs.len() == 0 {
        url
    } else {
        url_text_with_pair(
            url_with_pairs(url, pairs.drop_last()),
            pairs.last().0,
            pairs.last().1,
        )
    }
}

/// A request as plain values.
pub struct RequestView {
    pub url: Seq<char>,
    pub authorization: Seq<char>,
    pub content_type: Seq<char>,
    pub body: Seq<u8>,
}

impl View for DeepgramRequest {
    type V = RequestView;

    open spec fn view(&self) -> RequestView {
        RequestView {
            url: self.url@,
            authorization: self.authorization@,
            content_type: self.content_type@,
            body: self.body@,
        }
    }
}

/// The view of a request or its error.
pub open spec fn request_result(r: Result<DeepgramRequest, TranscriptionError>) -> Result<
    RequestView,
    ErrorView,
> {
    match r {
        Ok(req) => Ok(req@),
        Err(e) => Err(e@),
    }
}

/// The endpoint either does not parse or takes query pairs (no fragment,
/// and short enough for the `url` crate to add a query).
pub open spec fn endpoint_takes_query() -> bool {
    match parsed_url(DEEPGRAM_API_URL@) {
        Ok(base) => takes_query_pairs(base),
        Err(_) => true,
    }
}

/// The outcome of preparing a request for `body` of type `content_type`
/// from a provider in state `p`: an error without an API key; an error
/// "Invalid URL: " and the parse error's text where the endpoint does not
/// parse; else the request to the endpoint with the options' query pairs,
/// a "Token" header with the key, and the body unchanged.
pub open spec fn prepared_request(p: ProviderView, body: Seq<u8>, content_type: Seq<char>) -> Result<
    RequestView,
    ErrorView,
> {
    match p.api_key {
        None => Err(ErrorView::EngineFailed("Deepgram API key not configured"@)),
        Some(key) => match parsed_url(DEEPGRAM_API_URL@) {
            Err(e) => Err(ErrorView::EngineFailed("Invalid URL: "@ + url_error_text(e))),
            Ok(base) => Ok(
                RequestView {
                    url: url_with_pairs(base, query_pairs(p.options)),
                    authorization: "Token "@ + key,
                    content_type,
                    body,
                },
            ),
        },
    }
}

/// The provider's state after a transcription call that names `language`.
pub open spec fn after_language(p: ProviderView, language: Option<Seq<char>>) -> ProviderView {
    ProviderView { api_key: p.api_key, options: with_language(p.options, language) }
}

/// The outcome of transcribing 16 kHz audio from a provider in state `p`:
/// too-short audio is refused with its length and the minimum; else the
/// request prepared, after the language update, for the audio's WAV file.
pub open spec fn transcription_request(
    p: ProviderView,
    audio: Seq<i16>,
    language: Option<Seq<char>>,
) -> Result<RequestView, ErrorView> {
    if audio.len() < MIN_TRANSCRIBE_SAMPLES {
        Err(
            ErrorView::AudioTooShort {
                samples: audio.len() as usize,
                minimum: MIN_TRANSCRIBE_SAMPLES,
            },
        )
    } else {
        prepared_request(
            after_language(p, language),
            wav_bytes(audio, TRANSCRIBE_SAMPLE_RATE),
            "audio/wav"@,
        )
    }
}

/// Transcribing enough audio gives what preparing a request for the
/// audio's 16 kHz WAV file as "audio/wav" gives, once the language is set.
pub proof fn lemma_transcription_is_request_for_wav(
    p: ProviderView,
    audio: Seq<i16>,
    language: Option<Seq<char>>,
)
    requires
        audio.len() >= 1600,
    ensures
        transcription_request(p, audio, language) == prepared_request(
            after_language(p, language),
            wav_bytes(audio, 16000),
            "audio/wav"@,
        ),
        after_language(p, language).api_key == p.api_key,
        after_language(p, language).options == with_language(p.options, language),
        language matches Some(l) ==> after_language(p, language).options.language == Some(l),
{
}

proof fn lemma_url_with_pairs_step(url: Seq<char>, pairs: Seq<(Seq<char>, Seq<char>)>, k: int)
    requires
        0 < k <= pairs.len(),
    ensures
        url_with_pairs(url, pairs.take(k)) == url_text_with_pair(
            url_with_pairs(url, pairs.take(k - 1)),
            pairs[k - 1].0,
            pairs[k - 1].1,
        ),
{
    assert(pairs.take(k).drop_last() =~= pairs.take(k - 1));
}

/// The options after a transcription call that names `language`: the
/// language replaces the option where one is given.
pub open spec fn with_language(o: OptionsView, language: Option<Seq<char>>) -> OptionsView {
    match language {
        Some(l) => OptionsView {
            model: o.model,
            language: Some(l),
            diarize: o.diarize,
            punctuate: o.punctuate,
            smart_format: o.smart_format,
        },
        None => o,
    }
}

/// The message of a failed API reply with status `status`: the error code
/// and message where the body parsed as a Deepgram error, else the body.
pub open spec fn api_error_message(
    status: Seq<char>,
    body: Seq<char>,
    parsed: Option<(Seq<char>, Seq<char>)>,
) -> Seq<char> {
    match parsed {
        Some((code, msg)) => "Deepgram API error ("@ + status + "): "@ + code + " - "@ + msg,
        None => "Deepgram API error ("@ + status + "): "@ + body,
    }
}

/// The first alternative of the first channel, where there is one.
pub open spec fn first_alternative<A>(results: Option<Vec<Vec<A>>>) -> Option<A> {
    match results {
        Some(channels) => if channels@.len() > 0 && channels@[0]@.len() > 0 {
            Some(channels@[0]@[0])
        } else {
            None
        },
        None => None,
    }
}

/// The API error that a failed reply is answered with. `status` is the
/// HTTP status as text, `body` the reply's text, and `parsed` the error code
/// and message where the body parsed as a Deepgram error.
pub fn api_error(status: &str, body: &str, parsed: Option<(String, String)>) -> (e:
    TranscriptionError)
    ensures
        is_engine_failure(
            e,
            api_error_message(
                status@,
                body@,
                match parsed {
                    Some((c, m)) => Some((c@, m@)),
                    None => None,
                },
            ),
        ),
{
    let head = String::from_str("Deepgram API error (").concat(status).concat("): ");
    let msg = match parsed {
        Some((code, message)) => head.concat(code.as_str()).concat(" - ").concat(
            message.as_str(),
        ),
        None => head.concat(body),
    };
    TranscriptionError::EngineFailed(msg)
}

/// Picks the transcript of a successful reply: the first alternative of the
/// first channel, or an error where the reply holds none.
pub fn select_transcript<A>(results: Option<Vec<Vec<A>>>) -> (res: Result<A, TranscriptionError>)
    ensures
        match first_alternative(results) {
            Some(a) => res == Ok::<A, TranscriptionError>(a),
            None => res matches Err(e) && is_engine_failure(
                e,
                "No transcript in Deepgram response"@,
            ),
        },
{
    match results {
        Some(mut channels) => {
            if channels.len() > 0 {
                let mut first = channels.swap_remove(0);
                if first.len() > 0 {
                    let alt = first.swap_remove(0);
                    return Ok(alt);
                }
            }
            Err(TranscriptionError::engine_failed("No transcript in Deepgram response"))
        },
        None => Err(TranscriptionError::engine_failed("No transcript in Deepgram response")),
    }
}

/// A provider's state after its key is set to `key`.
pub open spec fn with_key(p: ProviderView, key: Seq<char>) -> ProviderView {
    ProviderView { api_key: Some(key), options: p.options }
}

/// A provider's state after its options are set to `o`.
pub open spec fn with_options(p: ProviderView, o: OptionsView) -> ProviderView {
    ProviderView { api_key: p.api_key, options: o }
}

/// Setting a key makes a provider configured and keeps its options;
/// setting options keeps whether it is configured and reads back as set;
/// a language given to a transcription is the language option afterwards,
/// and the other options stay.
pub proof fn lemma_provider_settings(p: ProviderView, key: Seq<char>, o: OptionsView, language: Seq<
    char,
>)
    ensures
        with_key(p, key).api_key == Some(key),
        with_key(p, key).options == p.options,
        with_options(p, o).api_key == p.api_key,
        with_options(p, o).options == o,
        with_language(p.options, Some(language)).language == Some(language),
        with_language(p.options, Some(language)).model == p.options.model,
        with_language(p.options, Some(language)).diarize == p.options.diarize,
        with_language(p.options, Some(language)).punctuate == p.options.punctuate,
        with_language(p.options, Some(language)).smart_format == p.options.smart_format,
        with_language(p.options, None) == p.options,
{
}

/// The model name a provider reports.
pub open spec fn current_model(p: ProviderView) -> Seq<char> {
    "deepgram:"@ + p.options.model
}

/// A provider reports its model as "deepgram:" followed by the model
/// option, nothing more.
pub proof fn lemma_current_model(p: ProviderView)
    ensures
        "deepgram:"@.is_prefix_of(current_model(p)),
        current_model(p).skip("deepgram:"@.len() as int) == p.options.model,
{
    assert(current_model(p).skip("deepgram:"@.len() as int) =~= p.options.model);
}

/// The text of a boolean query value.
proof fn lemma_bool_texts_differ()
    ensures
        "true"@ != "false"@,
{
    reveal_strlit("true");
    reveal_strlit("false");
    assert("true"@.len() != "false"@.len());
}

/// The query string of options `o` holds, in this order: the model, then
/// "punctuate", "diarize" and "smart_format" with "true" exactly where the
/// option holds and "false" otherwise, then the language where one is set.
pub proof fn lemma_query_pairs_follow_options(o: OptionsView)
    ensures
        query_pairs(o).len() == (if o.language is Some {
            5int
        } else {
            4int
        }),
        query_pairs(o)[0] == ("model"@, o.model),
        query_pairs(o)[1].0 == "punctuate"@,
        query_pairs(o)[1].1 == "true"@ <==> o.punctuate,
        query_pairs(o)[1].1 == "true"@ || query_pairs(o)[1].1 == "false"@,
        query_pairs(o)[2].0 == "diarize"@,
        query_pairs(o)[2].1 == "true"@ <==> o.diarize,
        query_pairs(o)[2].1 == "true"@ || query_pairs(o)[2].1 == "false"@,
        query_pairs(o)[3].0 == "smart_format"@,
        query_pairs(o)[3].1 == "true"@ <==> o.smart_format,
        query_pairs(o)[3].1 == "true"@ || query_pairs(o)[3].1 == "false"@,
        o.language matches Some(l) ==> query_pairs(o)[4] == ("language"@, l),
{
    lemma_bool_texts_differ();
}

/// Appending no pairs leaves a URL as it is, and appending pairs one more
/// appends that pair last, to the URL with the others appended.
pub proof fn lemma_url_pairs_appended_in_order(
    url: Seq<char>,
    pairs: Seq<(Seq<char>, Seq<char>)>,
    name: Seq<char>,
    value: Seq<char>,
)
    ensures
        url_with_pairs(url, Seq::empty()) == url,
        url_with_pairs(url, pairs.push((name, value))) == url_text_with_pair(
            url_with_pairs(url, pairs),
            name,
            value,
        ),
{
    assert(pairs.push((name, value)).drop_last() =~= pairs);
}

/// What a request prepared from a provider in state `p` is: without a key,
/// the error "Deepgram API key not configured"; where the endpoint does not
/// parse, "Invalid URL: " and the parse error's text; else a request to the
/// parsed endpoint with the options' query pairs appended, the header
/// "Token " and the key, the given content type, and the body unchanged.
pub proof fn lemma_prepared_request(p: ProviderView, body: Seq<u8>, content_type: Seq<char>)
    ensures
        p.api_key is None ==> prepared_request(p, body, content_type) == Err::<
            RequestView,
            ErrorView,
        >(ErrorView::EngineFailed("Deepgram API key not configured"@)),
        p.api_key matches Some(key) ==> match parsed_url(DEEPGRAM_API_URL@) {
            Err(e) => prepared_request(p, body, content_type) == Err::<RequestView, ErrorView>(
                ErrorView::EngineFailed("Invalid URL: "@ + url_error_text(e)),
            ),
            Ok(base) => prepared_request(p, body, content_type) matches Ok(r) && r.url
                == url_with_pairs(base, query_pairs(p.options)) && r.authorization == "Token "@
                + key && r.content_type == content_type && r.body == body,
        },
{
}

/// Audio of fewer than 1600 samples is refused with its length and 1600,
/// whatever the provider's state.
pub proof fn lemma_short_audio_refused(
    p: ProviderView,
    audio: Seq<i16>,
    language: Option<Seq<char>>,
)
    requires
        audio.len() < 1600,
    ensures
        transcription_request(p, audio, language) == Err::<RequestView, ErrorView>(
            ErrorView::AudioTooShort { samples: audio.len() as usize, minimum: 1600 },
        ),
{
}

/// The default options are model "nova-2", language "en", no
/// diarization, and punctuation and smart formatting on.
pub proof fn lemma_default_options()
    ensures
        default_options().model == "nova-2"@,
        default_options().language == Some("en"@),
        !default_options().diarize,
        default_options().punctuate,
        default_options().smart_format,
{
}

/// A failed reply's message starts with "Deepgram API error (", the
/// status and "): "; it continues with the error code, " - " and the error
/// message where the body parsed as an error, and with the body otherwise.
pub proof fn lemma_api_error_message(
    status: Seq<char>,
    body: Seq<char>,
    code: Seq<char>,
    msg: Seq<char>,
)
    ensures
        api_error_message(status, body, Some((code, msg))) == "Deepgram API error ("@ + status
            + "): "@ + code + " - "@ + msg,
        api_error_message(status, body, None) == "Deepgram API error ("@ + status + "): "@ + body,
{
}

/// A reply gives a transcript exactly when it has results with a channel
/// whose first alternative exists, and that transcript is the first
/// alternative of the first channel; other channels and alternatives do not
/// matter.
pub proof fn lemma_first_alternative<A>(results: Option<Vec<Vec<A>>>)
    ensures
        first_alternative(results) is Some <==> (results matches Some(c) && c@.len() > 0
            && c@[0]@.len() > 0),
        results matches Some(c) ==> (c@.len() > 0 && c@[0]@.len() > 0 ==> first_alternative(
            results,
        ) == Some(c@[0]@[0])),
{
}

/// How a boolean option is written in the query string.
fn bool_str(b: bool) -> (s: &'static str)
    ensures
        s@ == bool_text(b),
{
    if b {
        "true"
    } else {
        "false"
    }
}

impl DeepgramProvider {
    /// Create a new Deepgram provider: no API key and default options.
    pub fn new() -> (p: Self)
        ensures
            p@.api_key is None,
            p@.options == default_options(),
    {
        DeepgramProvider { api_key: None, options: DeepgramOptions::default() }
    }

    /// Create with API key and default options.
    pub fn with_api_key(api_key: String) -> (p: Self)
        ensures
            p@.api_key == Some(api_key@),
            p@.options == default_options(),
    {
        DeepgramProvider { api_key: Some(api_key), options: DeepgramOptions::default() }
    }

    /// Set the API key.
    pub fn set_api_key(&mut self, api_key: String)
        ensures
            final(self)@ == with_key(old(self)@, api_key@),
    {
        self.api_key = Some(api_key);
    }

    /// Set transcription options.
    pub fn set_options(&mut self, options: DeepgramOptions)
        ensures
            final(self)@ == with_options(old(self)@, options@),
    {
        self.options = options;
    }

    /// Check if API key is configured.
    pub fn is_configured(&self) -> (res: bool)
        ensures
            res == self@.api_key is Some,
    {
        self.api_key.is_some()
    }

    /// The options requests are made with.
    pub fn options(&self) -> (o: &DeepgramOptions)
        ensures
            o@ == self@.options,
    {
        &self.options
    }

    /// The name of the model in use: "deepgram:" and the model option.
    pub fn get_current_model(&self) -> (res: Option<String>)
        ensures
            res matches Some(m) && m@ == current_model(self@),
    {
        Some(String::from_str("deepgram:").concat(self.options.model.as_str()))
    }

    /// Prepares the request that transcribes `audio_bytes` (of MIME type
    /// `content_type`): fails without an API key or where the endpoint does
    /// not parse; else the endpoint carries the options as query pairs and
    /// the key goes in a "Token" authorization header.
    pub fn transcribe_bytes(&self, audio_bytes: Vec<u8>, content_type: &str) -> (res: Result<
        DeepgramRequest,
        TranscriptionError,
    >)
        requires
            endpoint_takes_query(),
        ensures
            request_result(res) == prepared_request(self@, audio_bytes@, content_type@),
    {
        let api_key = match &self.api_key {
            Some(k) => k,
            None => {
                return Err(TranscriptionError::engine_failed("Deepgram API key not configured"));
            },
        };
        let options = &self.options;

        let mut url = match parse_url(DEEPGRAM_API_URL) {
            Ok(u) => u,
            Err(e) => {
                let msg = String::from_str("Invalid URL: ").concat(url_error_string(&e).as_str());
                return Err(TranscriptionError::EngineFailed(msg));
            },
        };
        let ghost base = url_text(url);
        let ghost pairs = query_pairs(options@);
        proof {
            assert(pairs.take(0) =~= Seq::<(Seq<char>, Seq<char>)>::empty());
        }
        append_query_pair(&mut url, "model", options.model.as_str());
        proof {
            lemma_url_with_pairs_step(base, pairs, 1);
        }
        append_query_pair(&mut url, "punctuate", bool_str(options.punctuate));
        proof {
            lemma_url_with_pairs_step(base, pairs, 2);
        }
        append_query_pair(&mut url, "diarize", bool_str(options.diarize));
        proof {
            lemma_url_with_pairs_step(base, pairs, 3);
        }
        append_query_pair(&mut url, "smart_format", bool_str(options.smart_format));
        proof {
            lemma_url_with_pairs_step(base, pairs, 4);
        }
        match &options.language {
            Some(lang) => {
                append_query_pair(&mut url, "language", lang.as_str());
                proof {
                    lemma_url_with_pairs_step(base, pairs, 5);
                    assert(pairs.take(5) =~= pairs);
                }
            },
            None => {
                assert(pairs.take(4) =~= pairs);
            },
        }

        let authorization = String::from_str("Token ").concat(api_key.as_str());
        let req = DeepgramRequest {
            url: url_as_string(&url),
            authorization,
            content_type: String::from_str(content_type),
            body: audio_bytes,
        };
        assert(req@ == prepared_request(self@, audio_bytes@, content_type@)->Ok_0);
        Ok(req)
    }

    /// Prepares the transcription of 16 kHz mono PCM audio: a given
    /// language first replaces the language option (also when the audio
    /// is then refused); audio of fewer than 1600 samples is refused; else
    /// the request carries the audio as a WAV file.
    pub fn transcribe(&mut self, audio: &[i16], language: Option<String>) -> (res: Result<
        DeepgramRequest,
        TranscriptionError,
    >)
        requires
            endpoint_takes_query(),
            44 + 2 * audio@.len() <= usize::MAX,
        ensures
            final(self)@ == after_language(old(self)@, opt_str(language)),
            request_result(res) == transcription_request(old(self)@, audio@, opt_str(language)),
    {
        if let Some(lang) = language {
            self.options.language = Some(lang);
        }
        if audio.len() < MIN_TRANSCRIBE_SAMPLES {
            return Err(
                TranscriptionError::AudioTooShort {
                    samples: audio.len(),
                    minimum: MIN_TRANSCRIBE_SAMPLES,
                },
            );
        }
        let wav = Self::samples_to_wav(audio, TRANSCRIBE_SAMPLE_RATE);
        self.transcribe_bytes(wav, "audio/wav")
    }

    /// Prepares a request as `transcribe_bytes` does where the endpoint
    /// takes query pairs; `None` where it does not (query pairs cannot be
    /// added to it).
    pub fn checked_transcribe_bytes(&self, audio_bytes: Vec<u8>, content_type: &str) -> (res:
        Option<Result<DeepgramRequest, TranscriptionError>>)
        ensures
            endpoint_takes_query() ==> (res matches Some(r) && request_result(r) == prepared_request(
                self@,
                audio_bytes@,
                content_type@,
            )),
            !endpoint_takes_query() ==> res is None,
    {
        if endpoint_takes_query_now() {
            Some(self.transcribe_bytes(audio_bytes, content_type))
        } else {
            None
        }
    }

    /// Transcribes as `transcribe` does where the endpoint takes query
    /// pairs; `None`, with the provider unchanged, where it does not.
    pub fn checked_transcribe(&mut self, audio: &[i16], language: Option<String>) -> (res: Option<
        Result<DeepgramRequest, TranscriptionError>,
    >)
        requires
            44 + 2 * audio@.len() <= usize::MAX,
        ensures
            endpoint_takes_query() ==> (res matches Some(r) && request_result(r)
                == transcription_request(old(self)@, audio@, opt_str(language)) && final(self)@
                == after_language(old(self)@, opt_str(language))),
            !endpoint_takes_query() ==> res is None && final(self)@ == old(self)@,
    {
        if endpoint_takes_query_now() {
            Some(self.transcribe(audio, language))
        } else {
            None
        }
    }
}

/// Parses the endpoint and tells whether it takes query pairs.
fn endpoint_takes_query_now() -> (res: bool)
    ensures
        res == endpoint_takes_query(),
{
    match parse_url(DEEPGRAM_API_URL) {
        Ok(u) => {
            let text = url_as_string(&u);
            text_takes_query_pairs(text.as_str())
        },
        Err(_) => true,
    }
}

} // verus!
