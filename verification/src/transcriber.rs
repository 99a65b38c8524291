//! Speech-to-text: what is asked of the recognisers, how their answers are read, and where the
//! local model comes from.
use crate::config::{AsrBackend, Config, ConfigView};
use crate::json::{at, json_document, parse_json, string_at};
use crate::text::{
    all_chars_in, all_in, concat, concat3, ends_with, is_ascii_punctuation, is_whitespace, lowered,
    pairs, same, text_view, texts, trim, trimmed, CharClass,
};
use crate::text_laws::{law_trimming_is_exact, law_trimming_takes_only_the_ends};
use vstd::prelude::*;

verus! {

/// Backend used for speech-to-text transcription.
#[derive(Debug)]
pub enum TranscriberBackend {
    Remote { api_url: String, api_key: String, model: String, language: String },
    Local { model_name: String, language: String },
}

/// Transcriber supporting both local Whisper and remote ASR APIs.
#[derive(Debug)]
pub struct Transcriber {
    pub backend: TranscriberBackend,
}

/// A transcriber with its texts taken by their characters.
pub enum TranscriberView {
    Remote { api_url: Seq<char>, api_key: Seq<char>, model: Seq<char>, language: Seq<char> },
    Local { model_name: Seq<char>, language: Seq<char> },
}

impl View for Transcriber {
    type V = TranscriberView;

    open spec fn view(&self) -> TranscriberView {
        match self.backend {
            TranscriberBackend::Remote { api_url, api_key, model, language } =>
                TranscriberView::Remote {
                api_url: api_url@,
                api_key: api_key@,
                model: model@,
                language: language@,
            },
            TranscriberBackend::Local { model_name, language } => TranscriberView::Local {
                model_name: model_name@,
                language: language@,
            },
        }
    }
}

/// The language that the recogniser is told; `None` where it has to find out.
pub open spec fn language_hint(language: Seq<char>) -> Option<Seq<char>> {
    if language == "auto"@ || language.len() == 0 {
        None
    } else {
        Some(language)
    }
}

impl TranscriberView {
    /// The transcriber that a configuration describes.
    pub open spec fn configured(config: ConfigView) -> TranscriberView {
        match config.asr_backend {
            AsrBackend::Remote => TranscriberView::Remote {
                api_url: config.asr_api_url,
                api_key: config.asr_api_key,
                model: config.asr_model,
                language: config.asr_language,
            },
            AsrBackend::Local => TranscriberView::Local {
                model_name: config.whisper_model,
                language: config.asr_language,
            },
        }
    }

    /// A description of the active backend.
    pub open spec fn name(self) -> Seq<char> {
        match self {
            TranscriberView::Remote { model, .. } => "API ("@ + model + ")"@,
            TranscriberView::Local { model_name, .. } => "Local Whisper ("@ + model_name + ")"@,
        }
    }

    /// The language of the backend.
    pub open spec fn language(self) -> Seq<char> {
        match self {
            TranscriberView::Remote { language, .. } => language,
            TranscriberView::Local { language, .. } => language,
        }
    }

    /// The request to the remote API; `None` for the local model.
    pub open spec fn upload(self) -> Option<UploadRequestView> {
        match self {
            TranscriberView::Remote { api_url, api_key, model, language } => Some(
                UploadRequestView {
                    url: api_url,
                    headers: if api_key.len() == 0 {
                        Seq::empty()
                    } else {
                        seq![("Authorization"@, "Bearer "@ + api_key)]
                    },
                    file_field: "file"@,
                    file_name: "audio.wav"@,
                    mime_type: "audio/wav"@,
                    fields: match language_hint(language) {
                        Some(hint) => seq![("model"@, model), ("language"@, hint)],
                        None => seq![("model"@, model)],
                    },
                },
            ),
            TranscriberView::Local { .. } => None,
        }
    }
}

/// The form in which a speech segment is uploaded, as a WAV file: where it goes, its headers, the
/// field for the file with the name and type of the file, and the other fields.
#[derive(Debug)]
pub struct UploadRequest {
    pub url: String,
    pub headers: Vec<(String, String)>,
    pub file_field: String,
    pub file_name: String,
    pub mime_type: String,
    pub fields: Vec<(String, String)>,
}

/// A request with its texts taken by their characters.
#[verifier::ext_equal]
pub struct UploadRequestView {
    pub url: Seq<char>,
    pub headers: Seq<(Seq<char>, Seq<char>)>,
    pub file_field: Seq<char>,
    pub file_name: Seq<char>,
    pub mime_type: Seq<char>,
    pub fields: Seq<(Seq<char>, Seq<char>)>,
}

impl View for UploadRequest {
    type V = UploadRequestView;

    open spec fn view(&self) -> UploadRequestView {
        UploadRequestView {
            url: self.url@,
            headers: pairs(self.headers@),
            file_field: self.file_field@,
            file_name: self.file_name@,
            mime_type: self.mime_type@,
            fields: pairs(self.fields@),
        }
    }
}

/// The language that the recogniser is told.
fn hint(language: &str) -> (r: Option<String>)
    ensures
        text_view(r) == language_hint(language@),
{
    if same(language, "auto") || language.is_empty() {
        None
    } else {
        Some(language.to_string())
    }
}

impl Transcriber {
    /// Create a new transcriber with the given configuration.
    pub fn new(config: &Config) -> (r: Transcriber)
        ensures
            r@ == TranscriberView::configured(config@),
            r@ == match config@.asr_backend {
                AsrBackend::Remote => TranscriberView::Remote {
                    api_url: config@.asr_api_url,
                    api_key: config@.asr_api_key,
                    model: config@.asr_model,
                    language: config@.asr_language,
                },
                AsrBackend::Local => TranscriberView::Local {
                    model_name: config@.whisper_model,
                    language: config@.asr_language,
                },
            },
    {
        match config.asr_backend {
            AsrBackend::Remote => Transcriber {
                backend: TranscriberBackend::Remote {
                    api_url: config.asr_api_url.clone(),
                    api_key: config.asr_api_key.clone(),
                    model: config.asr_model.clone(),
                    language: config.asr_language.clone(),
                },
            },
            AsrBackend::Local => Transcriber {
                backend: TranscriberBackend::Local {
                    model_name: config.whisper_model.clone(),
                    language: config.asr_language.clone(),
                },
            },
        }
    }

    /// Return a human-readable description of the active ASR backend.
    pub fn backend_name(&self) -> (r: String)
        ensures
            r@ == self@.name(),
    {
        match &self.backend {
            TranscriberBackend::Remote { model, .. } => concat3("API (", model.as_str(), ")"),
            TranscriberBackend::Local { model_name, .. } => concat3(
                "Local Whisper (",
                model_name.as_str(),
                ")",
            ),
        }
    }

    /// The request to the remote API; `None` for the local model.
    pub fn upload_request(&self) -> (r: Option<UploadRequest>)
        ensures
            match r {
                Some(request) => self@.upload() == Some(request@),
                None => self@.upload() is None,
            },
    {
        match &self.backend {
            TranscriberBackend::Remote { api_url, api_key, model, language } => {
                let mut headers: Vec<(String, String)> = Vec::new();
                if !api_key.as_str().is_empty() {
                    headers.push(
                        ("Authorization".to_string(), concat("Bearer ", api_key.as_str())),
                    );
                }
                let mut fields: Vec<(String, String)> = Vec::new();
                fields.push(("model".to_string(), model.clone()));
                if let Some(spoken) = hint(language.as_str()) {
                    fields.push(("language".to_string(), spoken));
                }
                let r: UploadRequest = UploadRequest {
                    url: api_url.clone(),
                    headers,
                    file_field: "file".to_string(),
                    file_name: "audio.wav".to_string(),
                    mime_type: "audio/wav".to_string(),
                    fields,
                };
                assert(r@ =~= self@.upload()->Some_0);
                Some(r)
            },
            TranscriberBackend::Local { .. } => None,
        }
    }

    /// The language that the recogniser is told; `None` where it has to find out.
    pub fn spoken_language(&self) -> (r: Option<String>)
        ensures
            text_view(r) == language_hint(self@.language()),
    {
        match &self.backend {
            TranscriberBackend::Remote { language, .. } => hint(language.as_str()),
            TranscriberBackend::Local { language, .. } => hint(language.as_str()),
        }
    }
}

// ---------------------------------------------------------------------------
// Answers
// ---------------------------------------------------------------------------

/// The remote API answered with an error status.
#[derive(Debug)]
pub struct AsrError {
    pub status: String,
    pub body: String,
}

impl AsrError {
    /// The words for the error.
    pub fn message(&self) -> (r: String)
        ensures
            r@ == "ASR API returned error "@ + self.status@ + ": "@ + self.body@,
    {
        let mut r: String = concat3("ASR API returned error ", self.status.as_str(), ": ");
        r.append(self.body.as_str());
        r
    }
}

/// The transcript in an answer, given the string at the place of the transcript where the answer
/// is a JSON document that has one: that string, else the whole answer.
pub open spec fn transcript_in(found: Option<Seq<char>>, body: Seq<char>) -> Seq<char> {
    match found {
        Some(text) => trimmed(text),
        None => trimmed(body),
    }
}

/// The transcript in an answer, given what was found in it.
pub fn transcript_from(found: Option<String>, body: &str) -> (r: String)
    ensures
        r@ == transcript_in(text_view(found), body@),
{
    match found {
        Some(text) => trim(text.as_str(), CharClass::Whitespace).to_string(),
        None => trim(body, CharClass::Whitespace).to_string(),
    }
}

/// The string at the place of the transcript, by what is known of the strings of an answer.
pub open spec fn found_in(document: Option<Map<Seq<char>, Seq<char>>>) -> Option<Seq<char>> {
    match document {
        Some(strings) => at(strings, "/text"@),
        None => None,
    }
}

/// What is read out of an answer of the remote API, given the strings in it; an error is its status
/// and the answer.
pub open spec fn read_from(
    success: bool,
    status: Seq<char>,
    body: Seq<char>,
    document: Option<Map<Seq<char>, Seq<char>>>,
) -> Result<Seq<char>, (Seq<char>, Seq<char>)> {
    if success {
        Ok(transcript_in(found_in(document), body))
    } else {
        Err((status, body))
    }
}

/// What was read out of an answer, taken by its characters.
pub open spec fn read_view(r: Result<String, AsrError>) -> Result<
    Seq<char>,
    (Seq<char>, Seq<char>),
> {
    match r {
        Ok(text) => Ok(text@),
        Err(e) => Err((e.status@, e.body@)),
    }
}

/// Reads the transcript out of an answer of the remote API.
pub fn read_transcript(success: bool, status: &str, body: &str) -> (r: Result<String, AsrError>)
    ensures
        read_view(r) == read_from(success, status@, body@, json_document(body@)),
        match r {
            Ok(text) => success && text@ == transcript_in(found_in(json_document(body@)), body@),
            Err(e) => !success && e.status@ == status@ && e.body@ == body@,
        },
{
    if !success {
        return Err(AsrError { status: status.to_string(), body: body.to_string() });
    }
    match parse_json(body) {
        Ok(value) => Ok(transcript_from(string_at(&value, "/text"), body)),
        Err(_) => Ok(transcript_from(None, body)),
    }
}

/// The transcript in what the local model gives: nothing where that is punctuation alone.
pub open spec fn local_transcript(text: Seq<char>) -> Seq<char> {
    if all_in(trimmed(text), CharClass::NoSpeech) {
        Seq::empty()
    } else {
        trimmed(text)
    }
}

/// Reads the transcript out of what the local model gives.
///
/// Whisper makes up pure punctuation on low energy or silence; that is no speech.
pub fn clean_local_transcript(text: &str) -> (r: String)
    ensures
        r@ == local_transcript(text@),
{
    let t: &str = trim(text, CharClass::Whitespace);
    if all_chars_in(t, CharClass::NoSpeech) {
        String::new()
    } else {
        t.to_string()
    }
}

// ---------------------------------------------------------------------------
// The local model
// ---------------------------------------------------------------------------

/// The file name of a model, by its name in lower case.
pub open spec fn model_file(normalized: Seq<char>) -> Seq<char> {
    if ".bin"@.is_suffix_of(normalized) {
        normalized
    } else {
        "ggml-"@ + normalized + ".bin"@
    }
}

/// The file name of a model, by its name in lower case.
pub fn normalized_model_filename(normalized: &str) -> (r: String)
    ensures
        r@ == model_file(normalized@),
{
    if ends_with(normalized, ".bin") {
        normalized.to_string()
    } else {
        concat3("ggml-", normalized, ".bin")
    }
}

/// The file name of a model, by its name.
pub open spec fn file_of_model(model_name: Seq<char>) -> Seq<char> {
    model_file(lowered(trimmed(model_name)))
}

/// The file name of a model.
pub fn model_filename(model_name: &str) -> (r: String)
    ensures
        r@ == file_of_model(model_name@),
        r@ == model_file(lowered(trimmed(model_name@))),
{
    let normalized: String = trim(model_name, CharClass::Whitespace).to_lowercase();
    normalized_model_filename(normalized.as_str())
}

/// A path of two parts.
fn path2(a: &str, b: &str) -> (r: Vec<String>)
    ensures
        texts(r@) == seq![a@, b@],
{
    let mut r: Vec<String> = Vec::new();
    r.push(a.to_string());
    r.push(b.to_string());
    assert(texts(r@) =~= seq![a@, b@]);
    r
}

/// The parts of the path of a model file in the cache of a user with a home directory.
pub open spec fn cache_path(home: Option<Seq<char>>, filename: Seq<char>) -> Seq<Seq<char>> {
    match home {
        Some(h) => seq![h, ".cache"@, "typist"@, "models"@, filename],
        None => seq!["models"@, filename],
    }
}

/// Get the user cache directory path for a model file, in parts.
pub fn dirs_cache_path(home: &Option<String>, filename: &str) -> (r: Vec<String>)
    ensures
        texts(r@) == cache_path(text_view(*home), filename@),
{
    match home {
        Some(h) => {
            let mut r: Vec<String> = Vec::new();
            r.push(h.clone());
            r.push(".cache".to_string());
            r.push("typist".to_string());
            r.push("models".to_string());
            r.push(filename.to_string());
            assert(texts(r@) =~= cache_path(Some(h@), filename@));
            r
        },
        None => path2("models", filename),
    }
}

/// The places where a model file is looked for, in order.
pub open spec fn places(home: Option<Seq<char>>, filename: Seq<char>) -> Seq<Seq<Seq<char>>> {
    seq![seq!["models"@, filename], seq!["../models"@, filename], cache_path(home, filename)]
}

/// The places where a model file is looked for, in order, each as the parts of a path.
pub fn model_candidates(home: &Option<String>, filename: &str) -> (r: Vec<Vec<String>>)
    ensures
        r@.map_values(|p: Vec<String>| texts(p@)) == places(text_view(*home), filename@),
{
    let mut r: Vec<Vec<String>> = Vec::new();
    r.push(path2("models", filename));
    r.push(path2("../models", filename));
    r.push(dirs_cache_path(home, filename));
    assert(r@.map_values(|p: Vec<String>| texts(p@)) =~= places(text_view(*home), filename@));
    r
}

/// Where the model comes from.
#[derive(Debug, Clone, Copy, PartialEq, Eq, Structural)]
pub enum ModelLocation {
    /// The configured file.
    Custom,
    /// A file is configured, but it is not there.
    CustomMissing,
    /// One of the places where model files are looked for.
    Candidate(usize),
    /// The model is nowhere and has to be downloaded.
    Download,
}

/// Where the model comes from, given whether a file is configured and is there, and which of the
/// places hold a file.
pub open spec fn location(custom: Option<bool>, exists: Seq<bool>, l: ModelLocation) -> bool {
    match custom {
        Some(true) => l == ModelLocation::Custom,
        Some(false) => l == ModelLocation::CustomMissing,
        None => match l {
            ModelLocation::Candidate(i) => {
                &&& 0 <= i < exists.len()
                &&& exists[i as int]
                &&& forall|j: int| 0 <= j < i ==> !#[trigger] exists[j]
            },
            ModelLocation::Download => forall|j: int|
                0 <= j < exists.len() ==> !#[trigger] exists[j],
            _ => false,
        },
    }
}

/// Decides where the model comes from.
pub fn locate_model(custom: Option<bool>, exists: &Vec<bool>) -> (r: ModelLocation)
    ensures
        location(custom, exists@, r),
{
    if let Some(is_there) = custom {
        return if is_there {
            ModelLocation::Custom
        } else {
            ModelLocation::CustomMissing
        };
    }
    let mut i: usize = 0;
    while i < exists.len()
        invariant
            i <= exists@.len(),
            custom is None,
            forall|j: int| 0 <= j < i ==> !#[trigger] exists@[j],
        decreases exists@.len() - i,
    {
        if exists[i] {
            return ModelLocation::Candidate(i);
        }
        i = i + 1;
    }
    ModelLocation::Download
}

/// The address that a model file is downloaded from.
pub fn model_url(filename: &str) -> (r: String)
    ensures
        r@ == "https://huggingface.co/ggerganov/whisper.cpp/resolve/main/"@ + filename@,
{
    concat("https://huggingface.co/ggerganov/whisper.cpp/resolve/main/", filename)
}

/// Checks the answer to a download; the error is given in words.
pub fn check_download(success: bool, status: &str, url: &str) -> (r: Result<(), String>)
    ensures
        match r {
            Ok(_) => success,
            Err(e) => !success && e@ == "Failed to download Whisper model: HTTP "@ + status@
                + " from "@ + url@,
        },
{
    if success {
        Ok(())
    } else {
        let mut e: String = concat3("Failed to download Whisper model: HTTP ", status, " from ");
        e.append(url);
        Err(e)
    }
}

// ---------------------------------------------------------------------------
// Laws
// ---------------------------------------------------------------------------

/// There is exactly one place that the model comes from.
pub proof fn law_one_location(
    custom: Option<bool>,
    exists: Seq<bool>,
    a: ModelLocation,
    b: ModelLocation,
)
    requires
        location(custom, exists, a),
        location(custom, exists, b),
    ensures
        a == b,
{
    if custom is None {
        if let ModelLocation::Candidate(i) = a {
            if let ModelLocation::Candidate(j) = b {
                if i < j {
                    assert(!exists[i as int]);
                } else if j < i {
                    assert(!exists[j as int]);
                }
            }
        }
    }
}

/// A model file that is found by its own file name is found under the same name.
pub proof fn law_model_file_names_are_stable(normalized: Seq<char>)
    ensures
        model_file(model_file(normalized)) == model_file(normalized),
{
    let f = model_file(normalized);
    if !".bin"@.is_suffix_of(normalized) {
        assert(f.subrange(f.len() - ".bin"@.len(), f.len() as int) =~= ".bin"@);
    }
}

/// What the local model gives for silence is no transcript.
pub proof fn law_punctuation_alone_is_silence(text: Seq<char>)
    requires
        all_in(text, CharClass::NoSpeech),
    ensures
        local_transcript(text).len() == 0,
{
    lemma_trim_keeps_class(text, CharClass::NoSpeech);
}

/// Trimming white space leaves only characters of a class where there were no others.
proof fn lemma_trim_keeps_class(s: Seq<char>, class: CharClass)
    requires
        all_in(s, class),
    ensures
        all_in(trimmed(s), class),
    decreases s.len(),
{
    let w = CharClass::Whitespace;
    if s.len() > 0 && w.has(s[0]) {
        assert(all_in(s.skip(1), class)) by {
            assert forall|i: int| 0 <= i < s.skip(1).len() implies class.has(
                #[trigger] s.skip(1)[i],
            ) by {
                assert(class.has(s[i + 1]));
            }
        }
        lemma_trim_keeps_class(s.skip(1), class);
    } else {
        lemma_trim_end_keeps_class(s, class);
    }
}

proof fn lemma_trim_end_keeps_class(s: Seq<char>, class: CharClass)
    requires
        all_in(s, class),
    ensures
        all_in(crate::text::trim_end_of(s, CharClass::Whitespace), class),
    decreases s.len(),
{
    if s.len() > 0 && CharClass::Whitespace.has(s.last()) {
        assert(all_in(s.drop_last(), class)) by {
            assert forall|i: int| 0 <= i < s.drop_last().len() implies class.has(
                #[trigger] s.drop_last()[i],
            ) by {
                assert(class.has(s[i]));
            }
        }
        lemma_trim_end_keeps_class(s.drop_last(), class);
    }
}

/// What the local model gives is the transcript, whole but for the white space around it, unless
/// it holds punctuation and white space alone.
pub proof fn law_local_transcripts_are_kept_whole(text: Seq<char>, i: int)
    requires
        0 <= i < text.len(),
        !is_ascii_punctuation(text[i]),
        !is_whitespace(text[i]),
    ensures
        exists|before: Seq<char>, behind: Seq<char>|
            text == #[trigger] (before + local_transcript(text) + behind) && (forall|j: int|
                0 <= j < before.len() ==> is_whitespace(#[trigger] before[j])) && (forall|j: int|
                0 <= j < behind.len() ==> is_whitespace(#[trigger] behind[j])),
        local_transcript(text).len() > 0,
        !is_whitespace(local_transcript(text)[0]),
        !is_whitespace(local_transcript(text).last()),
{
    let w = CharClass::Whitespace;
    law_trimming_takes_only_the_ends(text, w);
    let t = trimmed(text);
    let (before, behind) = choose|before: Seq<char>, behind: Seq<char>|
        all_in(before, w) && all_in(behind, w) && text == #[trigger] (before + t + behind);
    let k = i - before.len();
    if k < 0 {
        assert(w.has(before[i]));
    } else if k >= t.len() {
        assert(w.has(behind[k - t.len()]));
    }
    assert(t[k] == text[i]);
    assert(!CharClass::NoSpeech.has(t[k]));
    assert(local_transcript(text) == t);
    assert forall|j: int| 0 <= j < before.len() implies is_whitespace(#[trigger] before[j]) by {
        assert(w.has(before[j]));
    }
    assert forall|j: int| 0 <= j < behind.len() implies is_whitespace(#[trigger] behind[j]) by {
        assert(w.has(behind[j]));
    }
    assert(text == before + local_transcript(text) + behind);
}

/// The transcript in an answer of the remote API is the string at its place, and the whole answer
/// where there is none, without the white space around it.
pub proof fn law_remote_transcripts_are_kept_whole(
    before: Seq<char>,
    text: Seq<char>,
    behind: Seq<char>,
    body: Seq<char>,
)
    requires
        all_in(before, CharClass::Whitespace),
        all_in(behind, CharClass::Whitespace),
        text.len() > 0 ==> !is_whitespace(text[0]) && !is_whitespace(text.last()),
    ensures
        transcript_in(Some(before + text + behind), body) == text,
        transcript_in(None, before + text + behind) == text,
{
    law_trimming_is_exact(before, text, behind, CharClass::Whitespace);
}

/// The place of the transcript in an answer is its member `text`.
pub proof fn law_where_the_transcript_is(strings: Map<Seq<char>, Seq<char>>)
    ensures
        strings.dom().contains("/text"@) ==> found_in(Some(strings)) == Some(strings["/text"@]),
        !strings.dom().contains("/text"@) ==> found_in(Some(strings)) is None,
        found_in(None) is None,
{
}

/// The recogniser is told the language that is configured, unless it is to find out itself.
pub proof fn law_the_language_is_passed_on(language: Seq<char>)
    ensures
        language_hint(language) is None == (language == "auto"@ || language == ""@),
        language_hint(language) matches Some(hint) ==> hint == language,
{
    reveal_strlit("");
    assert(language.len() == 0 ==> language =~= ""@);
}

/// The configured recogniser is the one that is used: with a remote one a segment goes to its
/// address as a WAV file, with the key where there is one, the model, and the language where it is
/// known; with a local one nothing is sent.
pub proof fn law_the_configured_recogniser_is_used(config: ConfigView)
    ensures
        config.asr_backend == AsrBackend::Local ==> TranscriberView::configured(
            config,
        ).upload() is None,
        config.asr_backend == AsrBackend::Local ==> TranscriberView::configured(config).name()
            == "Local Whisper ("@ + config.whisper_model + ")"@,
        config.asr_backend == AsrBackend::Remote ==> TranscriberView::configured(config).name()
            == "API ("@ + config.asr_model + ")"@,
        TranscriberView::configured(config).language() == config.asr_language,
        config.asr_backend == AsrBackend::Remote ==> {
            &&& TranscriberView::configured(config).upload() matches Some(request)
            &&& request.url == config.asr_api_url
            &&& request.file_field == "file"@
            &&& request.file_name == "audio.wav"@
            &&& request.mime_type == "audio/wav"@
            &&& config.asr_api_key == ""@ ==> request.headers.len() == 0
            &&& config.asr_api_key != ""@ ==> request.headers == seq![
                ("Authorization"@, "Bearer "@ + config.asr_api_key),
            ]
            &&& request.fields[0] == ("model"@, config.asr_model)
            &&& config.asr_language == "auto"@ || config.asr_language == ""@
                ==> request.fields.len() == 1
            &&& config.asr_language != "auto"@ && config.asr_language != ""@
                ==> request.fields.len() == 2 && request.fields[1] == (
                "language"@,
                config.asr_language,
            )
        },
{
    reveal_strlit("");
    law_the_language_is_passed_on(config.asr_language);
    assert(config.asr_api_key.len() == 0 ==> config.asr_api_key =~= ""@);
}

/// A model is named by its file, or by the name between `ggml-` and `.bin`.
pub proof fn law_the_files_of_models(name: Seq<char>)
    ensures
        ".bin"@.is_suffix_of(name) ==> model_file(name) == name,
        !".bin"@.is_suffix_of(name) ==> model_file(name) == "ggml-"@ + name + ".bin"@,
{
}

/// A model file is looked for in the directory `models` here, in that of the parent directory, and
/// in the cache of the user, in this order.
pub proof fn law_where_models_are_looked_for(home: Seq<char>, filename: Seq<char>)
    ensures
        places(Some(home), filename) == seq![
            seq!["models"@, filename],
            seq!["../models"@, filename],
            seq![home, ".cache"@, "typist"@, "models"@, filename],
        ],
        places(None, filename) == seq![
            seq!["models"@, filename],
            seq!["../models"@, filename],
            seq!["models"@, filename],
        ],
        cache_path(Some(home), filename) == seq![
            home,
            ".cache"@,
            "typist"@,
            "models"@,
            filename,
        ],
        cache_path(None, filename) == seq!["models"@, filename],
{
}

/// A configured file is used where it is there, and nothing else in its stead; without one the
/// first place that holds the model is used, and it is downloaded where none does.
pub proof fn law_the_first_place_counts(exists: Seq<bool>, l: ModelLocation)
    ensures
        location(Some(true), exists, l) == (l == ModelLocation::Custom),
        location(Some(false), exists, l) == (l == ModelLocation::CustomMissing),
        location(None, exists, l) ==> match l {
            ModelLocation::Candidate(i) => i < exists.len() && exists[i as int] && (forall|j: int|
                0 <= j < i ==> !#[trigger] exists[j]),
            ModelLocation::Download => !exists.contains(true),
            _ => false,
        },
{
}

/// An answer with an error status is an error; another gives the string at the place of the
/// transcript, or else the whole answer.
pub proof fn law_error_answers_are_errors(
    status: Seq<char>,
    body: Seq<char>,
    strings: Map<Seq<char>, Seq<char>>,
)
    ensures
        read_from(false, status, body, Some(strings)) == Err::<
            Seq<char>,
            (Seq<char>, Seq<char>),
        >((status, body)),
        read_from(false, status, body, None) == Err::<Seq<char>, (Seq<char>, Seq<char>)>(
            (status, body),
        ),
        read_from(true, status, body, None) == Ok::<Seq<char>, (Seq<char>, Seq<char>)>(
            transcript_in(None, body),
        ),
        strings.dom().contains("/text"@) ==> read_from(true, status, body, Some(strings)) == Ok::<
            Seq<char>,
            (Seq<char>, Seq<char>),
        >(transcript_in(Some(strings["/text"@]), body)),
        !strings.dom().contains("/text"@) ==> read_from(true, status, body, Some(strings)) == Ok::<
            Seq<char>,
            (Seq<char>, Seq<char>),
        >(transcript_in(None, body)),
{
}

/// A model goes by its name in lower case, whatever white space stands around it.
pub proof fn law_models_go_by_their_names(
    before: Seq<char>,
    name: Seq<char>,
    behind: Seq<char>,
)
    requires
        all_in(before, CharClass::Whitespace),
        all_in(behind, CharClass::Whitespace),
        name.len() > 0 ==> !is_whitespace(name[0]) && !is_whitespace(name.last()),
    ensures
        file_of_model(before + name + behind) == model_file(lowered(name)),
{
    law_trimming_is_exact(before, name, behind, CharClass::Whitespace);
}

} // verus!
