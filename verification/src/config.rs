//! Application configuration, read from a list of environment variables.
use crate::text::{
    all_in, is_whitespace, lowered, parse_unsigned, same, text_view, trim, trimmed, unsigned_number,
    CharClass,
};
use crate::text_laws::{law_trimming_is_exact, law_trimming_takes_only_the_ends};
use vstd::prelude::*;

verus! {

/// Output format for the document.
#[derive(Debug, Clone, Copy, PartialEq, Eq, Structural)]
pub enum OutputFormat {
    PlainText,
    Markdown,
}

impl OutputFormat {
    /// The file extension of saved documents.
    pub open spec fn extension(self) -> Seq<char> {
        match self {
            OutputFormat::PlainText => "txt"@,
            OutputFormat::Markdown => "md"@,
        }
    }

    /// The name of the format.
    pub open spec fn name(self) -> Seq<char> {
        match self {
            OutputFormat::PlainText => "Plain Text"@,
            OutputFormat::Markdown => "Markdown"@,
        }
    }

    /// The file extension of saved documents.
    pub fn file_extension(&self) -> (r: &str)
        ensures
            r@ == self.extension(),
    {
        match self {
            OutputFormat::PlainText => "txt",
            OutputFormat::Markdown => "md",
        }
    }

    /// The name of the format.
    pub fn display_name(&self) -> (r: &str)
        ensures
            r@ == self.name(),
    {
        match self {
            OutputFormat::PlainText => "Plain Text",
            OutputFormat::Markdown => "Markdown",
        }
    }
}

/// Speech-to-text backend choice.
#[derive(Debug, Clone, Copy, PartialEq, Eq, Structural)]
pub enum AsrBackend {
    /// Local Whisper model.
    Local,
    /// Remote OpenAI Whisper-compatible API.
    Remote,
}

impl AsrBackend {
    /// The name of the backend.
    pub open spec fn name(self) -> Seq<char> {
        match self {
            AsrBackend::Local => "Local Whisper"@,
            AsrBackend::Remote => "Remote ASR API"@,
        }
    }

    /// The name of the backend.
    pub fn display_name(&self) -> (r: &str)
        ensures
            r@ == self.name(),
    {
        match self {
            AsrBackend::Local => "Local Whisper",
            AsrBackend::Remote => "Remote ASR API",
        }
    }
}

/// Which result of the pipeline is typed into the document.
#[derive(Debug, Clone, Copy, PartialEq, Eq, Structural)]
pub enum OutputSource {
    /// The transcript as the speech recogniser gives it.
    Asr,
    /// The action that the language model makes of the transcript.
    Llm,
}

impl OutputSource {
    /// The name of the source.
    pub open spec fn name(self) -> Seq<char> {
        match self {
            OutputSource::Asr => "ASR"@,
            OutputSource::Llm => "LLM"@,
        }
    }

    /// The other source.
    pub open spec fn other(self) -> OutputSource {
        match self {
            OutputSource::Asr => OutputSource::Llm,
            OutputSource::Llm => OutputSource::Asr,
        }
    }

    /// The name of the source.
    pub fn display_name(&self) -> (r: &str)
        ensures
            r@ == self.name(),
    {
        match self {
            OutputSource::Asr => "ASR",
            OutputSource::Llm => "LLM",
        }
    }

    /// The other source.
    pub fn toggle(&self) -> (r: OutputSource)
        ensures
            r == self.other(),
    {
        match self {
            OutputSource::Asr => OutputSource::Llm,
            OutputSource::Llm => OutputSource::Asr,
        }
    }
}

/// Application configuration loaded from environment variables.
///
/// File-system paths are held as texts.  The three audio settings are held as the texts that
/// denote them; the audio front end turns them into numbers.
#[derive(Debug, Clone)]
pub struct Config {
    // Speech-to-text settings
    pub asr_backend: AsrBackend,
    pub asr_api_url: String,
    pub asr_api_key: String,
    pub asr_model: String,
    pub asr_language: String,
    // Local Whisper settings
    pub whisper_model: String,
    pub local_whisper_model_path: Option<String>,
    // Language model API
    pub llm_api_key: String,
    pub llm_base_url: String,
    pub llm_model: String,
    // Audio settings
    pub silence_threshold: String,
    pub silence_duration_secs: String,
    pub max_record_secs: String,
    // Output settings
    pub output_format: OutputFormat,
    pub output_source: OutputSource,
    pub output_file: Option<String>,
    pub typing_speed_cps: u32,
    pub save_directory: String,
}

/// A configuration with its texts taken by their characters.
#[verifier::ext_equal]
pub struct ConfigView {
    pub asr_backend: AsrBackend,
    pub asr_api_url: Seq<char>,
    pub asr_api_key: Seq<char>,
    pub asr_model: Seq<char>,
    pub asr_language: Seq<char>,
    pub whisper_model: Seq<char>,
    pub local_whisper_model_path: Option<Seq<char>>,
    pub llm_api_key: Seq<char>,
    pub llm_base_url: Seq<char>,
    pub llm_model: Seq<char>,
    pub silence_threshold: Seq<char>,
    pub silence_duration_secs: Seq<char>,
    pub max_record_secs: Seq<char>,
    pub output_format: OutputFormat,
    pub output_source: OutputSource,
    pub output_file: Option<Seq<char>>,
    pub typing_speed_cps: u32,
    pub save_directory: Seq<char>,
}

impl View for Config {
    type V = ConfigView;

    open spec fn view(&self) -> ConfigView {
        ConfigView {
            asr_backend: self.asr_backend,
            asr_api_url: self.asr_api_url@,
            asr_api_key: self.asr_api_key@,
            asr_model: self.asr_model@,
            asr_language: self.asr_language@,
            whisper_model: self.whisper_model@,
            local_whisper_model_path: text_view(self.local_whisper_model_path),
            llm_api_key: self.llm_api_key@,
            llm_base_url: self.llm_base_url@,
            llm_model: self.llm_model@,
            silence_threshold: self.silence_threshold@,
            silence_duration_secs: self.silence_duration_secs@,
            max_record_secs: self.max_record_secs@,
            output_format: self.output_format,
            output_source: self.output_source,
            output_file: text_view(self.output_file),
            typing_speed_cps: self.typing_speed_cps,
            save_directory: self.save_directory@,
        }
    }
}

impl ConfigView {
    /// Whether a language model API is configured: whether its key is more than white space.
    pub open spec fn has_llm_api(self) -> bool {
        trimmed(self.llm_api_key).len() > 0
    }
}

/// The value of a variable: that of the first entry with its name.
pub open spec fn lookup(vars: Seq<(String, String)>, name: Seq<char>) -> Option<Seq<char>>
    decreases vars.len(),
{
    if vars.len() == 0 {
        None
    } else if vars[0].0@ == name {
        Some(vars[0].1@)
    } else {
        lookup(vars.skip(1), name)
    }
}

/// A value, or a default where it is missing.
pub open spec fn or_default(value: Option<Seq<char>>, default: Seq<char>) -> Seq<char> {
    match value {
        Some(v) => v,
        None => default,
    }
}

/// The format that the value of `OUTPUT_FORMAT` asks for.
pub open spec fn format_named(value: Seq<char>) -> OutputFormat {
    let v = lowered(value);
    if v == "plain"@ || v == "plaintext"@ || v == "text"@ || v == "txt"@ {
        OutputFormat::PlainText
    } else {
        OutputFormat::Markdown
    }
}

/// The endpoint that is used where `ASR_API_URL` is not set.
pub const DEFAULT_ASR_API_URL: &'static str = "http://localhost:8080/v1/audio/transcriptions";

/// Whether the variables configure a remote speech API: a key that is more than white space,
/// or an address that is, and is not the default one.
pub open spec fn asr_api_configured(key: Option<Seq<char>>, url: Option<Seq<char>>) -> bool {
    ||| trimmed(or_default(key, Seq::empty())).len() > 0
    ||| match url {
        Some(u) => trimmed(u).len() > 0 && trimmed(u) != DEFAULT_ASR_API_URL@,
        None => false,
    }
}

/// The backend that the variables ask for: the one that `ASR_BACKEND` names, and where it
/// names none, the remote one if it is configured.
pub open spec fn backend_chosen(
    name: Option<Seq<char>>,
    key: Option<Seq<char>>,
    url: Option<Seq<char>>,
) -> AsrBackend {
    let automatic = if asr_api_configured(key, url) {
        AsrBackend::Remote
    } else {
        AsrBackend::Local
    };
    match name {
        Some(n) => if lowered(n) == "local"@ {
            AsrBackend::Local
        } else if lowered(n) == "remote"@ || lowered(n) == "api"@ {
            AsrBackend::Remote
        } else {
            automatic
        },
        None => automatic,
    }
}

/// The configuration that a list of variables describes.
pub open spec fn config_of(vars: Seq<(String, String)>) -> ConfigView {
    ConfigView {
        asr_backend: backend_chosen(
            lookup(vars, "ASR_BACKEND"@),
            lookup(vars, "ASR_API_KEY"@),
            lookup(vars, "ASR_API_URL"@),
        ),
        asr_api_url: or_default(lookup(vars, "ASR_API_URL"@), DEFAULT_ASR_API_URL@),
        asr_api_key: or_default(lookup(vars, "ASR_API_KEY"@), ""@),
        asr_model: or_default(lookup(vars, "ASR_MODEL"@), "whisper-1"@),
        asr_language: or_default(lookup(vars, "ASR_LANGUAGE"@), "auto"@),
        whisper_model: or_default(
            lookup(vars, "WHISPER_MODEL"@),
            or_default(lookup(vars, "WHISPER_MODEL_SIZE"@), "tiny"@),
        ),
        local_whisper_model_path: match lookup(vars, "LOCAL_WHISPER_MODEL_PATH"@) {
            Some(p) => if trimmed(p).len() > 0 {
                Some(p)
            } else {
                None
            },
            None => None,
        },
        llm_api_key: or_default(lookup(vars, "LLM_API_KEY"@), ""@),
        llm_base_url: or_default(lookup(vars, "LLM_BASE_URL"@), "https://api.openai.com/v1"@),
        llm_model: or_default(lookup(vars, "LLM_MODEL"@), "gpt-4o-mini"@),
        silence_threshold: or_default(lookup(vars, "SILENCE_THRESHOLD"@), "0.02"@),
        silence_duration_secs: or_default(lookup(vars, "SILENCE_DURATION"@), "1.5"@),
        max_record_secs: or_default(lookup(vars, "MAX_RECORD_SECONDS"@), "30"@),
        output_format: match lookup(vars, "OUTPUT_FORMAT"@) {
            Some(value) => format_named(value),
            None => OutputFormat::Markdown,
        },
        output_source: OutputSource::Llm,
        output_file: None,
        typing_speed_cps: match unsigned_number(or_default(lookup(vars, "TYPING_SPEED"@), "0"@)) {
            Some(n) => n,
            None => 0,
        },
        save_directory: or_default(lookup(vars, "SAVE_DIRECTORY"@), "./output"@),
    }
}

/// Finds the value of a variable.
fn find_var(vars: &Vec<(String, String)>, name: &str) -> (r: Option<String>)
    ensures
        text_view(r) == lookup(vars@, name@),
{
    let mut i: usize = 0;
    assert(vars@.skip(0) =~= vars@);
    while i < vars.len()
        invariant
            i <= vars@.len(),
            lookup(vars@.skip(i as int), name@) == lookup(vars@, name@),
        decreases vars@.len() - i,
    {
        if same(vars[i].0.as_str(), name) {
            return Some(vars[i].1.clone());
        }
        assert(vars@.skip(i as int).skip(1) =~= vars@.skip(i + 1));
        i = i + 1;
    }
    None
}

/// The value of a variable, or a default where it is not set.
fn var_or(vars: &Vec<(String, String)>, name: &str, default: &str) -> (r: String)
    ensures
        r@ == or_default(lookup(vars@, name@), default@),
{
    match find_var(vars, name) {
        Some(v) => v,
        None => default.to_string(),
    }
}

/// Tests whether a text is more than white space.
pub fn has_content(s: &str) -> (r: bool)
    ensures
        r == (trimmed(s@).len() > 0),
{
    !trim(s, CharClass::Whitespace).is_empty()
}

/// Reads the value of `OUTPUT_FORMAT`.
fn choose_format(value: &str) -> (r: OutputFormat)
    ensures
        r == format_named(value@),
{
    let v: String = value.to_lowercase();
    let name: &str = v.as_str();
    if same(name, "plain") || same(name, "plaintext") || same(name, "text") || same(name, "txt") {
        OutputFormat::PlainText
    } else {
        OutputFormat::Markdown
    }
}

/// Determines the speech-to-text backend.
fn choose_backend(
    name: &Option<String>,
    key: &Option<String>,
    url: &Option<String>,
) -> (r: AsrBackend)
    ensures
        r == backend_chosen(text_view(*name), text_view(*key), text_view(*url)),
{
    if let Some(n) = name {
        let v: String = n.as_str().to_lowercase();
        if same(v.as_str(), "local") {
            return AsrBackend::Local;
        }
        if same(v.as_str(), "remote") || same(v.as_str(), "api") {
            return AsrBackend::Remote;
        }
    }
    let has_api_key: bool = match key {
        Some(k) => has_content(k.as_str()),
        None => false,
    };
    let has_custom_url: bool = match url {
        Some(u) => {
            let t: &str = trim(u.as_str(), CharClass::Whitespace);
            !t.is_empty() && !same(t, DEFAULT_ASR_API_URL)
        },
        None => false,
    };
    if has_api_key || has_custom_url {
        AsrBackend::Remote
    } else {
        AsrBackend::Local
    }
}

impl Config {
    /// Check whether an LLM API is configured.
    pub fn has_llm_api(&self) -> (r: bool)
        ensures
            r == self@.has_llm_api(),
    {
        has_content(self.llm_api_key.as_str())
    }

    /// Load configuration from environment variables, given as pairs of name and value.
    pub fn from_env(vars: &Vec<(String, String)>) -> (r: Config)
        ensures
            r@ == config_of(vars@),
    {
        let asr_backend: AsrBackend = choose_backend(
            &find_var(vars, "ASR_BACKEND"),
            &find_var(vars, "ASR_API_KEY"),
            &find_var(vars, "ASR_API_URL"),
        );
        let model_size: String = var_or(vars, "WHISPER_MODEL_SIZE", "tiny");
        let local_whisper_model_path: Option<String> = match find_var(
            vars,
            "LOCAL_WHISPER_MODEL_PATH",
        ) {
            Some(p) => if has_content(p.as_str()) {
                Some(p)
            } else {
                None
            },
            None => None,
        };
        let output_format: OutputFormat = match find_var(vars, "OUTPUT_FORMAT") {
            Some(value) => choose_format(value.as_str()),
            None => OutputFormat::Markdown,
        };
        let typing_speed_cps: u32 = match parse_unsigned(
            var_or(vars, "TYPING_SPEED", "0").as_str(),
        ) {
            Some(n) => n,
            None => 0,
        };
        Config {
            asr_backend,
            asr_api_url: var_or(vars, "ASR_API_URL", DEFAULT_ASR_API_URL),
            asr_api_key: var_or(vars, "ASR_API_KEY", ""),
            asr_model: var_or(vars, "ASR_MODEL", "whisper-1"),
            asr_language: var_or(vars, "ASR_LANGUAGE", "auto"),
            whisper_model: var_or(vars, "WHISPER_MODEL", model_size.as_str()),
            local_whisper_model_path,
            llm_api_key: var_or(vars, "LLM_API_KEY", ""),
            llm_base_url: var_or(vars, "LLM_BASE_URL", "https://api.openai.com/v1"),
            llm_model: var_or(vars, "LLM_MODEL", "gpt-4o-mini"),
            silence_threshold: var_or(vars, "SILENCE_THRESHOLD", "0.02"),
            silence_duration_secs: var_or(vars, "SILENCE_DURATION", "1.5"),
            max_record_secs: var_or(vars, "MAX_RECORD_SECONDS", "30"),
            output_format,
            output_source: OutputSource::Llm,
            output_file: None,
            typing_speed_cps,
            save_directory: var_or(vars, "SAVE_DIRECTORY", "./output"),
        }
    }
}

/// The names of the variables that make up a configuration.
pub open spec fn variable_names() -> Seq<Seq<char>> {
    seq![
        "OUTPUT_FORMAT"@,
        "SAVE_DIRECTORY"@,
        "ASR_API_KEY"@,
        "ASR_API_URL"@,
        "ASR_BACKEND"@,
        "ASR_MODEL"@,
        "ASR_LANGUAGE"@,
        "WHISPER_MODEL"@,
        "WHISPER_MODEL_SIZE"@,
        "LOCAL_WHISPER_MODEL_PATH"@,
        "LLM_API_KEY"@,
        "LLM_BASE_URL"@,
        "LLM_MODEL"@,
        "SILENCE_THRESHOLD"@,
        "SILENCE_DURATION"@,
        "MAX_RECORD_SECONDS"@,
        "TYPING_SPEED"@,
    ]
}

/// Lists the names of the variables that make up a configuration.
pub fn list_variable_names() -> (r: Vec<&'static str>)
    ensures
        r@.map_values(|s: &'static str| s@) == variable_names(),
{
    let r: Vec<&'static str> = vec![
        "OUTPUT_FORMAT",
        "SAVE_DIRECTORY",
        "ASR_API_KEY",
        "ASR_API_URL",
        "ASR_BACKEND",
        "ASR_MODEL",
        "ASR_LANGUAGE",
        "WHISPER_MODEL",
        "WHISPER_MODEL_SIZE",
        "LOCAL_WHISPER_MODEL_PATH",
        "LLM_API_KEY",
        "LLM_BASE_URL",
        "LLM_MODEL",
        "SILENCE_THRESHOLD",
        "SILENCE_DURATION",
        "MAX_RECORD_SECONDS",
        "TYPING_SPEED",
    ];
    assert(r@.map_values(|s: &'static str| s@) =~= variable_names());
    r
}

/// With no speech API configured and no backend named, speech is recognised locally.
pub proof fn law_local_unless_configured(vars: Seq<(String, String)>)
    requires
        lookup(vars, "ASR_BACKEND"@) is None,
        lookup(vars, "ASR_API_KEY"@) is None,
        lookup(vars, "ASR_API_URL"@) is None,
    ensures
        config_of(vars).asr_backend == AsrBackend::Local,
{
}

/// Without an API key for the language model, utterances are classified offline.
pub proof fn law_offline_without_key(vars: Seq<(String, String)>)
    requires
        lookup(vars, "LLM_API_KEY"@) is None,
    ensures
        !config_of(vars).has_llm_api(),
{
    reveal_strlit("");
    assert(""@ =~= Seq::<char>::empty());
}

/// Variables whose names play no part in the configuration do not change it: two lists that
/// agree on the names of `variable_names` describe the same configuration.
pub proof fn law_only_listed_variables_matter(a: Seq<(String, String)>, b: Seq<(String, String)>)
    requires
        forall|i: int|
            0 <= i < variable_names().len() ==> lookup(a, #[trigger] variable_names()[i])
                == lookup(b, variable_names()[i]),
    ensures
        config_of(a) == config_of(b),
{
    let n = variable_names();
    assert(n[0] == "OUTPUT_FORMAT"@ && n[1] == "SAVE_DIRECTORY"@ && n[2] == "ASR_API_KEY"@ && n[3]
        == "ASR_API_URL"@ && n[4] == "ASR_BACKEND"@ && n[5] == "ASR_MODEL"@ && n[6]
        == "ASR_LANGUAGE"@ && n[7] == "WHISPER_MODEL"@ && n[8] == "WHISPER_MODEL_SIZE"@ && n[9]
        == "LOCAL_WHISPER_MODEL_PATH"@ && n[10] == "LLM_API_KEY"@ && n[11] == "LLM_BASE_URL"@
        && n[12] == "LLM_MODEL"@ && n[13] == "SILENCE_THRESHOLD"@ && n[14] == "SILENCE_DURATION"@
        && n[15] == "MAX_RECORD_SECONDS"@ && n[16] == "TYPING_SPEED"@);
}

/// The first entry with a name gives its value; without one there is none.
pub proof fn law_the_first_entry_counts(vars: Seq<(String, String)>, name: Seq<char>, k: int)
    ensures
        0 <= k < vars.len() && vars[k].0@ == name && (forall|j: int|
            0 <= j < k ==> (#[trigger] vars[j]).0@ != name) ==> lookup(vars, name) == Some(
            vars[k].1@,
        ),
        (forall|j: int| 0 <= j < vars.len() ==> (#[trigger] vars[j]).0@ != name) ==> lookup(
            vars,
            name,
        ) is None,
    decreases vars.len(),
{
    if vars.len() > 0 && vars[0].0@ != name {
        let rest = vars.skip(1);
        law_the_first_entry_counts(rest, name, k - 1);
        if 0 <= k < vars.len() && vars[k].0@ == name && (forall|j: int|
            0 <= j < k ==> (#[trigger] vars[j]).0@ != name) {
            assert(rest[k - 1] == vars[k]);
            assert forall|j: int| 0 <= j < k - 1 implies (#[trigger] rest[j]).0@ != name by {
                assert(vars[j + 1].0@ != name);
            }
        }
        if forall|j: int| 0 <= j < vars.len() ==> (#[trigger] vars[j]).0@ != name {
            assert forall|j: int| 0 <= j < rest.len() implies (#[trigger] rest[j]).0@ != name by {
                assert(vars[j + 1].0@ != name);
            }
        }
    }
}

/// A variable that is set is taken over as it is.
pub proof fn law_variables_are_taken_over(vars: Seq<(String, String)>, v: Seq<char>)
    ensures
        lookup(vars, "ASR_API_URL"@) == Some(v) ==> config_of(vars).asr_api_url == v,
        lookup(vars, "ASR_API_KEY"@) == Some(v) ==> config_of(vars).asr_api_key == v,
        lookup(vars, "ASR_MODEL"@) == Some(v) ==> config_of(vars).asr_model == v,
        lookup(vars, "ASR_LANGUAGE"@) == Some(v) ==> config_of(vars).asr_language == v,
        lookup(vars, "WHISPER_MODEL"@) == Some(v) ==> config_of(vars).whisper_model == v,
        lookup(vars, "WHISPER_MODEL"@) is None && lookup(vars, "WHISPER_MODEL_SIZE"@) == Some(v)
            ==> config_of(vars).whisper_model == v,
        lookup(vars, "LLM_API_KEY"@) == Some(v) ==> config_of(vars).llm_api_key == v,
        lookup(vars, "LLM_BASE_URL"@) == Some(v) ==> config_of(vars).llm_base_url == v,
        lookup(vars, "LLM_MODEL"@) == Some(v) ==> config_of(vars).llm_model == v,
        lookup(vars, "SILENCE_THRESHOLD"@) == Some(v) ==> config_of(vars).silence_threshold == v,
        lookup(vars, "SILENCE_DURATION"@) == Some(v) ==> config_of(vars).silence_duration_secs == v,
        lookup(vars, "MAX_RECORD_SECONDS"@) == Some(v) ==> config_of(vars).max_record_secs == v,
        lookup(vars, "SAVE_DIRECTORY"@) == Some(v) ==> config_of(vars).save_directory == v,
        lookup(vars, "LOCAL_WHISPER_MODEL_PATH"@) == Some(v) && (exists|i: int|
            0 <= i < v.len() && !is_whitespace(#[trigger] v[i])) ==> config_of(
            vars,
        ).local_whisper_model_path == Some(v),
        lookup(vars, "LOCAL_WHISPER_MODEL_PATH"@) == Some(v) && (forall|i: int|
            0 <= i < v.len() ==> is_whitespace(#[trigger] v[i])) ==> config_of(
            vars,
        ).local_whisper_model_path is None,
        lookup(vars, "TYPING_SPEED"@) == Some(v) && unsigned_number(v) is Some ==> Some(
            config_of(vars).typing_speed_cps,
        ) == unsigned_number(v),
        lookup(vars, "TYPING_SPEED"@) == Some(v) && unsigned_number(v) is None ==> config_of(
            vars,
        ).typing_speed_cps == 0,
        config_of(vars).output_source == OutputSource::Llm,
        config_of(vars).output_file is None,
{
    law_blank_texts(v);
}

/// A variable that is not set has its default.
pub proof fn law_defaults(vars: Seq<(String, String)>)
    ensures
        lookup(vars, "ASR_API_URL"@) is None ==> config_of(vars).asr_api_url
            == "http://localhost:8080/v1/audio/transcriptions"@,
        lookup(vars, "ASR_API_KEY"@) is None ==> config_of(vars).asr_api_key == ""@,
        lookup(vars, "ASR_MODEL"@) is None ==> config_of(vars).asr_model == "whisper-1"@,
        lookup(vars, "ASR_LANGUAGE"@) is None ==> config_of(vars).asr_language == "auto"@,
        lookup(vars, "WHISPER_MODEL"@) is None && lookup(vars, "WHISPER_MODEL_SIZE"@) is None
            ==> config_of(vars).whisper_model == "tiny"@,
        lookup(vars, "LLM_API_KEY"@) is None ==> config_of(vars).llm_api_key == ""@,
        lookup(vars, "LLM_BASE_URL"@) is None ==> config_of(vars).llm_base_url
            == "https://api.openai.com/v1"@,
        lookup(vars, "LLM_MODEL"@) is None ==> config_of(vars).llm_model == "gpt-4o-mini"@,
        lookup(vars, "SILENCE_THRESHOLD"@) is None ==> config_of(vars).silence_threshold == "0.02"@,
        lookup(vars, "SILENCE_DURATION"@) is None ==> config_of(vars).silence_duration_secs
            == "1.5"@,
        lookup(vars, "MAX_RECORD_SECONDS"@) is None ==> config_of(vars).max_record_secs == "30"@,
        lookup(vars, "SAVE_DIRECTORY"@) is None ==> config_of(vars).save_directory == "./output"@,
        lookup(vars, "LOCAL_WHISPER_MODEL_PATH"@) is None ==> config_of(
            vars,
        ).local_whisper_model_path is None,
        lookup(vars, "OUTPUT_FORMAT"@) is None ==> config_of(vars).output_format
            == OutputFormat::Markdown,
        lookup(vars, "TYPING_SPEED"@) is None ==> config_of(vars).typing_speed_cps == 0,
{
    if lookup(vars, "TYPING_SPEED"@) is None {
        reveal_strlit("0");
        let s = "0"@;
        assert(s.drop_last() =~= Seq::<char>::empty());
        assert(crate::text::digits_value(s.drop_last()) == 0);
        assert(crate::text::digits_value(s) == 0);
    }
}

/// The names of the output formats: plain text goes by four names, in any case, and everything
/// else is Markdown.
pub proof fn law_the_names_of_formats(vars: Seq<(String, String)>, v: Seq<char>)
    requires
        lookup(vars, "OUTPUT_FORMAT"@) == Some(v),
    ensures
        (config_of(vars).output_format == OutputFormat::PlainText) == (lowered(v) == "plain"@
            || lowered(v) == "plaintext"@ || lowered(v) == "text"@ || lowered(v) == "txt"@),
{
}

/// A text is blank where it holds white space alone.
pub proof fn law_blank_texts(s: Seq<char>)
    ensures
        trimmed(s).len() == 0 <==> (forall|i: int|
            0 <= i < s.len() ==> is_whitespace(#[trigger] s[i])),
{
    let w = CharClass::Whitespace;
    law_trimming_takes_only_the_ends(s, w);
    let t = trimmed(s);
    let (before, behind) = choose|before: Seq<char>, behind: Seq<char>|
        all_in(before, w) && all_in(behind, w) && s == #[trigger] (before + t + behind);
    if t.len() == 0 {
        assert forall|i: int| 0 <= i < s.len() implies is_whitespace(#[trigger] s[i]) by {
            if i < before.len() {
                assert(w.has(before[i]));
            } else {
                assert(w.has(behind[i - before.len()]));
            }
        }
    } else {
        assert(s[before.len() as int] == t[0]);
    }
}

/// A language model is configured where its key is more than white space.
pub proof fn law_a_key_configures_the_language_model(config: ConfigView)
    ensures
        config.has_llm_api() == (exists|i: int|
            0 <= i < config.llm_api_key.len() && !is_whitespace(#[trigger] config.llm_api_key[i])),
{
    law_blank_texts(config.llm_api_key);
}

/// The recogniser is the one that is named; where none is, it is the remote one if there is a key
/// or an address of one's own, and else the local one.
pub proof fn law_which_recogniser_is_chosen(
    name: Option<Seq<char>>,
    key: Option<Seq<char>>,
    before: Seq<char>,
    url: Seq<char>,
    behind: Seq<char>,
)
    requires
        all_in(before, CharClass::Whitespace),
        all_in(behind, CharClass::Whitespace),
        url.len() > 0 ==> !is_whitespace(url[0]) && !is_whitespace(url.last()),
    ensures
        ({
            let address = Some(before + url + behind);
            let has_key = key matches Some(k) && (exists|i: int|
                0 <= i < k.len() && !is_whitespace(#[trigger] k[i]));
            let named = name matches Some(n) && (lowered(n) == "local"@ || lowered(n) == "remote"@
                || lowered(n) == "api"@);
            &&& (name matches Some(n) && lowered(n) == "local"@) ==> backend_chosen(
                name,
                key,
                address,
            ) == AsrBackend::Local && backend_chosen(name, key, None) == AsrBackend::Local
            &&& (name matches Some(n) && lowered(n) != "local"@ && (lowered(n) == "remote"@
                || lowered(n) == "api"@)) ==> backend_chosen(name, key, address)
                == AsrBackend::Remote && backend_chosen(name, key, None) == AsrBackend::Remote
            &&& !named ==> (backend_chosen(name, key, None) == AsrBackend::Remote) == has_key
            &&& !named ==> (backend_chosen(name, key, address) == AsrBackend::Remote) == (has_key
                || (url.len() > 0 && url != "http://localhost:8080/v1/audio/transcriptions"@))
        }),
{
    law_trimming_is_exact(before, url, behind, CharClass::Whitespace);
    law_blank_texts(or_default(key, Seq::empty()));
}

/// The backend is chosen by the variables for it.
pub proof fn law_the_recogniser_is_chosen_by_its_variables(vars: Seq<(String, String)>)
    ensures
        config_of(vars).asr_backend == backend_chosen(
            lookup(vars, "ASR_BACKEND"@),
            lookup(vars, "ASR_API_KEY"@),
            lookup(vars, "ASR_API_URL"@),
        ),
{
}

/// What formats, backends and output sources are called, and that the two output sources are each
/// other's counterpart.
pub proof fn law_what_settings_are_called()
    ensures
        OutputFormat::PlainText.extension() == "txt"@,
        OutputFormat::Markdown.extension() == "md"@,
        OutputFormat::PlainText.name() == "Plain Text"@,
        OutputFormat::Markdown.name() == "Markdown"@,
        AsrBackend::Local.name() == "Local Whisper"@,
        AsrBackend::Remote.name() == "Remote ASR API"@,
        OutputSource::Asr.name() == "ASR"@,
        OutputSource::Llm.name() == "LLM"@,
        OutputSource::Asr.other() == OutputSource::Llm,
        OutputSource::Llm.other() == OutputSource::Asr,
{
}

} // verus!
