use vstd::prelude::*;
use crate::deepgram::{DeepgramOptions, OptionsView, default_options};

verus! {

/// The transcription back ends a file can be sent to.
#[derive(Debug, Clone, Copy, PartialEq, Eq, Structural)]
pub enum TranscriptionProviderType {
    Whisper,
    Parakeet,
    Deepgram,
}

/// The lowercase name under which a provider is known.
pub open spec fn provider_name(p: TranscriptionProviderType) -> Seq<char> {
    match p {
        TranscriptionProviderType::Whisper => "whisper"@,
        TranscriptionProviderType::Parakeet => "parakeet"@,
        TranscriptionProviderType::Deepgram => "deepgram"@,
    }
}

impl TranscriptionProviderType {
    /// The provider's lowercase name ("whisper", "parakeet" or "deepgram").
    pub fn to_string(&self) -> (res: String)
        ensures
            res@ == provider_name(*self),
    {
        match self {
            TranscriptionProviderType::Whisper => String::from_str("whisper"),
            TranscriptionProviderType::Parakeet => String::from_str("parakeet"),
            TranscriptionProviderType::Deepgram => String::from_str("deepgram"),
        }
    }
}


/// Progress update during transcription
pub struct TranscriptionProgress {
    /// Current stage: "loading", "processing", "transcribing", "complete"
    pub stage: String,
    /// Progress percentage (0-100)
    pub progress: u8,
    /// Current status message
    pub message: String,
}

/// A progress update as plain values.
pub struct ProgressView {
    pub stage: Seq<char>,
    pub progress: u8,
    pub message: Seq<char>,
}

impl View for TranscriptionProgress {
    type V = ProgressView;

    open spec fn view(&self) -> ProgressView {
        ProgressView { stage: self.stage@, progress: self.progress, message: self.message@ }
    }
}

impl TranscriptionProgress {
    /// A progress update with the given stage, percentage and message.
    pub fn new(stage: &str, progress: u8, message: &str) -> (p: Self)
        ensures
            p@ == (ProgressView { stage: stage@, progress, message: message@ }),
    {
        TranscriptionProgress {
            stage: String::from_str(stage),
            progress,
            message: String::from_str(message),
        }
    }
}

/// The options set from optional values: each given value replaces the
/// default, each missing one leaves it (so a missing language leaves "en").
pub open spec fn options_from_overrides(
    model: Option<Seq<char>>,
    language: Option<Seq<char>>,
    diarize: Option<bool>,
    punctuate: Option<bool>,
    smart_format: Option<bool>,
) -> OptionsView {
    OptionsView {
        model: match model {
            Some(m) => m,
            None => "nova-2"@,
        },
        language: match language {
            Some(l) => Some(l),
            None => Some("en"@),
        },
        diarize: match diarize {
            Some(d) => d,
            None => false,
        },
        punctuate: match punctuate {
            Some(p) => p,
            None => true,
        },
        smart_format: match smart_format {
            Some(f) => f,
            None => true,
        },
    }
}

/// Builds the Deepgram options from the default ones, replacing each
/// option that a value is given for.
pub fn deepgram_options_from(
    model: Option<String>,
    language: Option<String>,
    diarize: Option<bool>,
    punctuate: Option<bool>,
    smart_format: Option<bool>,
) -> (o: DeepgramOptions)
    ensures
        o@ == options_from_overrides(
            crate::deepgram::opt_str(model),
            crate::deepgram::opt_str(language),
            diarize,
            punctuate,
            smart_format,
        ),
{
    let mut options = DeepgramOptions::default();
    if let Some(m) = model {
        options.model = m;
    }
    if let Some(l) = language {
        options.language = Some(l);
    }
    if let Some(d) = diarize {
        options.diarize = d;
    }
    if let Some(p) = punctuate {
        options.punctuate = p;
    }
    if let Some(f) = smart_format {
        options.smart_format = f;
    }
    options
}

/// The names of the providers a file can be transcribed with: Whisper and
/// Parakeet always, Deepgram where it is configured.
pub open spec fn available_providers(deepgram_configured: bool) -> Seq<Seq<char>> {
    if deepgram_configured {
        seq!["whisper"@, "parakeet"@, "deepgram"@]
    } else {
        seq!["whisper"@, "parakeet"@]
    }
}

/// Lists the providers a file can be transcribed with.
pub fn available_file_transcription_providers(deepgram_configured: bool) -> (res: Vec<String>)
    ensures
        res@.map_values(|s: String| s@) == available_providers(deepgram_configured),
{
    let mut providers: Vec<String> = Vec::new();
    providers.push(String::from_str("whisper"));
    providers.push(String::from_str("parakeet"));
    if deepgram_configured {
        providers.push(String::from_str("deepgram"));
    }
    assert(providers@.map_values(|s: String| s@) =~= available_providers(deepgram_configured));
    providers
}


/// Distinct providers have distinct names.
pub proof fn lemma_provider_names_distinct(a: TranscriptionProviderType, b: TranscriptionProviderType)
    ensures
        provider_name(a) == provider_name(b) <==> a == b,
        provider_name(TranscriptionProviderType::Whisper) == "whisper"@,
        provider_name(TranscriptionProviderType::Parakeet) == "parakeet"@,
        provider_name(TranscriptionProviderType::Deepgram) == "deepgram"@,
{
    reveal_strlit("whisper");
    reveal_strlit("parakeet");
    reveal_strlit("deepgram");
    if a != b {
        assert(provider_name(a)[0] != provider_name(b)[0] || provider_name(a).len() != provider_name(
            b,
        ).len());
    }
}

/// With no value given, the options are the defaults.
pub proof fn lemma_no_overrides_give_defaults()
    ensures
        options_from_overrides(None, None, None, None, None) == default_options(),
{
}

/// Each override sets exactly its own option: a given value becomes that
/// option, a missing one leaves the default option, and the other
/// arguments play no part.
pub proof fn lemma_each_override_sets_its_option(
    model: Option<Seq<char>>,
    language: Option<Seq<char>>,
    diarize: Option<bool>,
    punctuate: Option<bool>,
    smart_format: Option<bool>,
    model2: Option<Seq<char>>,
    language2: Option<Seq<char>>,
    diarize2: Option<bool>,
    punctuate2: Option<bool>,
    smart_format2: Option<bool>,
)
    ensures
        model matches Some(m) ==> options_from_overrides(model, language, diarize, punctuate, smart_format).model == m,
        model is None ==> options_from_overrides(model, language, diarize, punctuate, smart_format).model == default_options().model,
        language matches Some(l) ==> options_from_overrides(model, language, diarize, punctuate, smart_format).language == Some(l),
        language is None ==> options_from_overrides(model, language, diarize, punctuate, smart_format).language == default_options().language,
        diarize matches Some(d) ==> options_from_overrides(model, language, diarize, punctuate, smart_format).diarize == d,
        diarize is None ==> options_from_overrides(model, language, diarize, punctuate, smart_format).diarize == default_options().diarize,
        punctuate matches Some(x) ==> options_from_overrides(model, language, diarize, punctuate, smart_format).punctuate == x,
        punctuate is None ==> options_from_overrides(model, language, diarize, punctuate, smart_format).punctuate == default_options().punctuate,
        smart_format matches Some(f) ==> options_from_overrides(model, language, diarize, punctuate, smart_format).smart_format == f,
        smart_format is None ==> options_from_overrides(model, language, diarize, punctuate, smart_format).smart_format == default_options().smart_format,
        options_from_overrides(model, language, diarize, punctuate, smart_format).model == options_from_overrides(model, language2, diarize2, punctuate2, smart_format2).model,
        options_from_overrides(model, language, diarize, punctuate, smart_format).language == options_from_overrides(model2, language, diarize2, punctuate2, smart_format2).language,
        options_from_overrides(model, language, diarize, punctuate, smart_format).diarize == options_from_overrides(model2, language2, diarize, punctuate2, smart_format2).diarize,
        options_from_overrides(model, language, diarize, punctuate, smart_format).punctuate == options_from_overrides(model2, language2, diarize2, punctuate, smart_format2).punctuate,
        options_from_overrides(model, language, diarize, punctuate, smart_format).smart_format == options_from_overrides(model2, language2, diarize2, punctuate2, smart_format).smart_format,
{
}

/// Whisper and Parakeet are always listed, first and in that order;
/// Deepgram is listed exactly when it is configured.
pub proof fn lemma_deepgram_listed_iff_configured(deepgram_configured: bool)
    ensures
        available_providers(deepgram_configured).len() == (if deepgram_configured {
            3int
        } else {
            2int
        }),
        deepgram_configured ==> available_providers(deepgram_configured)[2] == "deepgram"@,
        available_providers(deepgram_configured)[0] == "whisper"@,
        available_providers(deepgram_configured)[1] == "parakeet"@,
        available_providers(deepgram_configured).contains("deepgram"@) <==> deepgram_configured,
{
    reveal_strlit("whisper");
    reveal_strlit("parakeet");
    reveal_strlit("deepgram");
    let l = available_providers(deepgram_configured);
    if deepgram_configured {
        assert(l[2] == "deepgram"@);
    } else {
        assert("whisper"@ != "deepgram"@ && "parakeet"@ != "deepgram"@) by {
            assert("whisper"@[0] != "deepgram"@[0]);
            assert("parakeet"@[0] != "deepgram"@[0]);
        }
    }
}

} // verus!
