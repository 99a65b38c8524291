//! Audio sources and the checks on what is read from them.
use crate::config::or_default;
use crate::events::{AppEvent, EventView};
use crate::mp3::{
    audio_view, decodes_to, frame_views, fully_decoded, law_an_mp3_file_is_decoded_whole,
    lemma_frames_are_kept, load_mp3, mp3_audio, Mp3Audio, Mp3FrameView, Mp3StepView,
};
use crate::text::{
    ascii_lower, ascii_lowercase, chars_of, concat, find_last, last_index_in, lemma_last_index_in,
    same_ignoring_ascii_case, text_view, CharClass,
};
use crate::wav::{
    header_view, read_header, read_integers, samples_view, wav_header, wav_integers, WavHeader,
};
use vstd::prelude::*;

verus! {

/// The source from which Typist receives audio.
#[derive(Debug, Clone, PartialEq, Eq)]
pub enum AudioSource {
    Microphone,
    /// Loopback capture of the default speaker output on Windows.
    SystemAudio,
    /// A WAV or MP3 file, by its path.
    File(String),
}

/// A source with its path taken by its characters.
pub enum SourceView {
    Microphone,
    SystemAudio,
    File(Seq<char>),
}

impl View for AudioSource {
    type V = SourceView;

    open spec fn view(&self) -> SourceView {
        match *self {
            AudioSource::Microphone => SourceView::Microphone,
            AudioSource::SystemAudio => SourceView::SystemAudio,
            AudioSource::File(path) => SourceView::File(path@),
        }
    }
}

/// Decoded mono audio loaded from a WAV or MP3 file.
///
/// `F` is the type of an audio sample.
#[derive(Debug)]
pub struct AudioFile<F> {
    pub samples: Vec<F>,
    pub sample_rate: u32,
}

/// The event that submits a file: its audio as one speech segment.
pub open spec fn submitted<F>(samples: Seq<F>, sample_rate: u32) -> EventView<F> {
    EventView::SpeechSegmentReady { samples, sample_rate }
}

impl<F> AudioFile<F> {
    /// Submits the file to the pipeline that live audio goes through, as one speech segment.
    pub fn into_event(self) -> (r: AppEvent<F>)
        ensures
            r@ == submitted(self.samples@, self.sample_rate),
            r@ == (EventView::SpeechSegmentReady {
                samples: self.samples@,
                sample_rate: self.sample_rate,
            }),
    {
        AppEvent::SpeechSegmentReady { samples: self.samples, sample_rate: self.sample_rate }
    }
}

/// What can be wrong with an audio source.
#[derive(Debug, Clone, PartialEq, Eq)]
pub enum AudioError {
    /// There is no file at the path.
    Missing(String),
    /// The file is neither a WAV nor an MP3 file.
    Unsupported,
    /// Loopback capture is not available.
    SystemAudioUnsupported,
    /// A file was given where a live source is needed.
    NotLive,
    /// The file at the path is not a WAV file that can be read.
    Unreadable(String),
    /// The WAV header of the file makes no sense.
    InvalidFormat(String),
    /// A sample of the WAV file cannot be read.
    Undecodable,
    /// The file at the path holds no samples.
    NoSamples(String),
    /// The sample rate changes within the file.
    RateChanged(String),
    /// The MP3 decoder failed.
    Mp3Undecodable,
    /// The MP3 file holds no frame that can be decoded.
    NothingDecoded,
}

/// An audio error with its path taken by its characters.
pub enum AudioErrorView {
    Missing(Seq<char>),
    Unsupported,
    SystemAudioUnsupported,
    NotLive,
    Unreadable(Seq<char>),
    InvalidFormat(Seq<char>),
    Undecodable,
    NoSamples(Seq<char>),
    RateChanged(Seq<char>),
    Mp3Undecodable,
    NothingDecoded,
}

impl View for AudioError {
    type V = AudioErrorView;

    open spec fn view(&self) -> AudioErrorView {
        match *self {
            AudioError::Missing(path) => AudioErrorView::Missing(path@),
            AudioError::Unsupported => AudioErrorView::Unsupported,
            AudioError::SystemAudioUnsupported => AudioErrorView::SystemAudioUnsupported,
            AudioError::NotLive => AudioErrorView::NotLive,
            AudioError::Unreadable(path) => AudioErrorView::Unreadable(path@),
            AudioError::InvalidFormat(path) => AudioErrorView::InvalidFormat(path@),
            AudioError::Undecodable => AudioErrorView::Undecodable,
            AudioError::NoSamples(path) => AudioErrorView::NoSamples(path@),
            AudioError::RateChanged(path) => AudioErrorView::RateChanged(path@),
            AudioError::Mp3Undecodable => AudioErrorView::Mp3Undecodable,
            AudioError::NothingDecoded => AudioErrorView::NothingDecoded,
        }
    }
}

impl AudioErrorView {
    /// The words for an error.
    pub open spec fn words(self) -> Seq<char> {
        match self {
            AudioErrorView::Missing(path) => "Audio file does not exist: "@ + path,
            AudioErrorView::Unsupported =>
                "Unsupported audio file. Typist accepts WAV and MP3 files."@,
            AudioErrorView::SystemAudioUnsupported =>
                "System audio capture is currently supported on Windows"@,
            AudioErrorView::NotLive => "File is not a live audio source"@,
            AudioErrorView::Unreadable(path) => "Failed to open audio file: "@ + path,
            AudioErrorView::InvalidFormat(path) => "Audio file has an invalid WAV format: "@ + path,
            AudioErrorView::Undecodable => "Failed to decode PCM WAV sample"@,
            AudioErrorView::NoSamples(path) => "Audio file contains no samples: "@ + path,
            AudioErrorView::RateChanged(path) => "MP3 sample rate changes within "@ + path,
            AudioErrorView::Mp3Undecodable => "Failed to decode MP3 audio"@,
            AudioErrorView::NothingDecoded => "MP3 file contains no decodable audio"@,
        }
    }
}

impl AudioError {
    /// The words for the error.
    pub fn message(&self) -> (r: String)
        ensures
            r@ == self@.words(),
    {
        match self {
            AudioError::Missing(path) => concat("Audio file does not exist: ", path.as_str()),
            AudioError::Unsupported =>
                "Unsupported audio file. Typist accepts WAV and MP3 files.".to_string(),
            AudioError::SystemAudioUnsupported =>
                "System audio capture is currently supported on Windows".to_string(),
            AudioError::NotLive => "File is not a live audio source".to_string(),
            AudioError::Unreadable(path) => concat("Failed to open audio file: ", path.as_str()),
            AudioError::InvalidFormat(path) => concat(
                "Audio file has an invalid WAV format: ",
                path.as_str(),
            ),
            AudioError::Undecodable => "Failed to decode PCM WAV sample".to_string(),
            AudioError::NoSamples(path) => concat(
                "Audio file contains no samples: ",
                path.as_str(),
            ),
            AudioError::RateChanged(path) => concat(
                "MP3 sample rate changes within ",
                path.as_str(),
            ),
            AudioError::Mp3Undecodable => "Failed to decode MP3 audio".to_string(),
            AudioError::NothingDecoded => "MP3 file contains no decodable audio".to_string(),
        }
    }
}

// ---------------------------------------------------------------------------
// File names
// ---------------------------------------------------------------------------

/// What stands behind the last slash of a path.
pub open spec fn last_segment(path: Seq<char>) -> Seq<char> {
    path.skip(last_index_in(path, CharClass::Slash) + 1)
}

/// A path without the slashes, and the dots between slashes, at its end.
pub open spec fn without_end_slashes(path: Seq<char>) -> Seq<char>
    decreases path.len(),
{
    let n = path.len();
    if n > 0 && path[n - 1] == '/' {
        without_end_slashes(path.take(n - 1))
    } else if n > 1 && path[n - 1] == '.' && path[n - 2] == '/' {
        without_end_slashes(path.take(n - 2))
    } else {
        path
    }
}

/// Whether a character parts the names in a path on one system or another.
pub open spec fn is_separator(c: char) -> bool {
    c == '/' || c == '\\' || c == ':'
}

/// What stands behind the last separator of a path, whatever the system.
pub open spec fn tail(path: Seq<char>) -> Seq<char>
    decreases path.len(),
{
    if path.len() == 0 || is_separator(path.last()) {
        Seq::empty()
    } else {
        tail(path.drop_last()).push(path.last())
    }
}

/// Whether a path starts with two slashes or backslashes, as the name of a share or a device does.
pub open spec fn is_share_path(path: Seq<char>) -> bool {
    &&& path.len() >= 2
    &&& path[0] == '/' || path[0] == '\\'
    &&& path[1] == '/' || path[1] == '\\'
}

/// The number of slashes and backslashes in a path.
pub open spec fn slashes(path: Seq<char>) -> nat
    decreases path.len(),
{
    if path.len() == 0 {
        0
    } else {
        slashes(path.drop_last()) + if path.last() == '/' || path.last() == '\\' {
            1nat
        } else {
            0
        }
    }
}

/// Whether a path reads the same on every system: it holds no backslash, no colon and no
/// leading double slash.
pub open spec fn is_plain_path(path: Seq<char>) -> bool {
    &&& forall|i: int| 0 <= i < path.len() ==> (#[trigger] path[i]) != '\\' && path[i] != ':'
    &&& !is_share_path(path)
}

/// The name of the file at a plain path: its last part, unless that stands for a directory.
pub open spec fn plain_name(path: Seq<char>) -> Option<Seq<char>> {
    let last = last_segment(without_end_slashes(path));
    if last.len() == 0 || last == seq!['.'] || last == seq!['.', '.'] {
        None
    } else {
        Some(last)
    }
}

/// Whether the name of the file at a path ends with the tail of the path, if there is a name:
/// the tail is more than a dot, and the path is not taken literally as those that start with
/// `\\?` are.
pub open spec fn has_tail(path: Seq<char>) -> bool {
    let t = tail(without_end_slashes(path));
    &&& t.len() > 0
    &&& t != seq!['.']
    &&& !(is_share_path(path) && path.len() > 2 && path[2] == '?')
}

/// Whether there is a name to the file at a path on every system: the tail is not the parent
/// directory, nor part of the name of a share or a device.
pub open spec fn has_name(path: Seq<char>) -> bool {
    &&& has_tail(path)
    &&& tail(without_end_slashes(path)) != seq!['.', '.']
    &&& is_share_path(path) ==> slashes(without_end_slashes(path)) >= 4
}

/// Whether a name can be that of the file at a path.
pub open spec fn may_be_named(path: Seq<char>, name: Option<Seq<char>>) -> bool {
    let whole = without_end_slashes(path);
    &&& is_plain_path(path) ==> name == plain_name(path)
    &&& has_tail(path) && name is Some ==> tail(whole).is_suffix_of(name->0)
        && name->0.is_suffix_of(whole)
    &&& has_name(path) ==> name is Some
}

/// `Path::file_name`: the last component of a path, if it is a normal one.  Slashes at the end,
/// and dots between them, do not count.  For a plain path that is the part behind the last slash.
/// For others it depends on the system how much of the path is the name; but where the path ends
/// in something other than a separator or a dot, the name is an end of the path, and no shorter
/// than what stands behind the last separator of any kind.  There is a name unless that is `..`,
/// or belongs to the name of a share (`\\server\share`) or of a device (`\\.\device`).  What
/// the name is for paths that end in a backslash, a colon, or a dot behind one of them, and for
/// those that start with `\\?`, differs between the systems and is left unsaid.
#[verifier::external_body]
fn file_name(path: &str) -> (r: Option<String>)
    ensures
        may_be_named(path@, text_view(r)),
{
    std::path::Path::new(path).file_name().and_then(|n| n.to_str()).map(|n| n.to_string())
}

/// The extension of a file name: what stands behind its last dot, unless that is its first
/// character.
pub open spec fn extension(name: Seq<char>) -> Option<Seq<char>> {
    let dot = last_index_in(name, CharClass::Dot);
    if dot > 0 {
        Some(name.skip(dot + 1))
    } else {
        None
    }
}

/// Whether a file name has an extension, whatever the case of its letters.
pub open spec fn has_extension(name: Option<Seq<char>>, wanted: Seq<char>) -> bool {
    match name {
        Some(n) => match extension(n) {
            Some(e) => ascii_lowercase(e) == ascii_lowercase(wanted),
            None => false,
        },
        None => false,
    }
}

/// Tests whether a file name has an extension, whatever the case of its letters.
pub fn name_has_extension(name: &Option<String>, wanted: &str) -> (r: bool)
    ensures
        r == has_extension(text_view(*name), wanted@),
{
    match name {
        Some(n) => {
            let v: Vec<char> = chars_of(n.as_str());
            assert(v@.take(v@.len() as int) =~= n@);
            proof {
                lemma_last_index_in(n@, CharClass::Dot);
            }
            match find_last(&v, v.len(), CharClass::Dot) {
                Some(dot) => {
                    if dot == 0 {
                        return false;
                    }
                    let e: &str = n.as_str().substring_char(dot + 1, v.len());
                    assert(e@ =~= n@.skip(dot + 1));
                    same_ignoring_ascii_case(e, wanted)
                },
                None => false,
            }
        },
        None => false,
    }
}

/// How a file source is shown, given the name of the file.
pub open spec fn file_label(name: Option<Seq<char>>) -> Seq<char> {
    "File: "@ + or_default(name, "audio file"@)
}

/// Shows a file source, given the name of the file.
pub fn file_display_name(name: Option<String>) -> (r: String)
    ensures
        r@ == file_label(text_view(name)),
{
    match name {
        Some(n) => concat("File: ", n.as_str()),
        None => concat("File: ", "audio file"),
    }
}

impl AudioSource {
    /// The name of the source.  A file is shown by its name, where it has one.
    pub fn display_name(&self) -> (r: String)
        ensures
            match self@ {
                SourceView::Microphone => r@ == "Microphone"@,
                SourceView::SystemAudio => r@ == "System audio"@,
                SourceView::File(path) => exists|name: Option<Seq<char>>|
                    may_be_named(path, name) && r@ == #[trigger] file_label(name),
            },
    {
        match self {
            AudioSource::Microphone => "Microphone".to_string(),
            AudioSource::SystemAudio => "System audio".to_string(),
            AudioSource::File(path) => {
                let name: Option<String> = file_name(path.as_str());
                let ghost n = text_view(name);
                let r: String = file_display_name(name);
                assert(may_be_named(path@, n) && r@ == file_label(n));
                r
            },
        }
    }

    /// Whether audio keeps coming from the source.
    pub fn is_live(&self) -> (r: bool)
        ensures
            r == !(self@ is File),
    {
        match self {
            AudioSource::File(_) => false,
            _ => true,
        }
    }
}

/// What a check of an audio file gives, given the name of the file and whether it exists.
pub open spec fn checked_file(
    path: Seq<char>,
    name: Option<Seq<char>>,
    is_file: bool,
) -> Result<SourceView, AudioErrorView> {
    if !is_file {
        Err(AudioErrorView::Missing(path))
    } else if has_extension(name, "wav"@) || has_extension(name, "mp3"@) {
        Ok(SourceView::File(path))
    } else {
        Err(AudioErrorView::Unsupported)
    }
}

/// The result of a check, taken by its contents.
pub open spec fn check_view(r: Result<AudioSource, AudioError>) -> Result<
    SourceView,
    AudioErrorView,
> {
    match r {
        Ok(source) => Ok(source@),
        Err(e) => Err(e@),
    }
}

/// Checks an audio file, given its name and whether it exists.
pub fn check_named_file(path: String, name: Option<String>, is_file: bool) -> (r: Result<
    AudioSource,
    AudioError,
>)
    ensures
        check_view(r) == checked_file(path@, text_view(name), is_file),
{
    if !is_file {
        return Err(AudioError::Missing(path));
    }
    if name_has_extension(&name, "wav") || name_has_extension(&name, "mp3") {
        Ok(AudioSource::File(path))
    } else {
        Err(AudioError::Unsupported)
    }
}

/// Checks that a path leads to a WAV or MP3 file, given whether there is a file at all.
pub fn validate_audio_path(path: String, is_file: bool) -> (r: Result<AudioSource, AudioError>)
    ensures
        exists|name: Option<Seq<char>>|
            may_be_named(path@, name) && check_view(r) == #[trigger] checked_file(
                path@,
                name,
                is_file,
            ),
{
    let name: Option<String> = file_name(path.as_str());
    let ghost n = text_view(name);
    let ghost p = path@;
    let r: Result<AudioSource, AudioError> = check_named_file(path, name, is_file);
    assert(may_be_named(p, n) && check_view(r) == checked_file(p, n, is_file));
    r
}

/// The decoder that a file needs.
#[derive(Debug, Clone, Copy, PartialEq, Eq, Structural)]
pub enum AudioFileKind {
    Mp3,
    Wav,
}

/// The decoder that a file needs, by its name.
pub open spec fn kind_named(name: Option<Seq<char>>) -> AudioFileKind {
    if has_extension(name, "mp3"@) {
        AudioFileKind::Mp3
    } else {
        AudioFileKind::Wav
    }
}

/// Chooses the decoder for a file.
pub fn audio_file_kind(path: &str) -> (r: AudioFileKind)
    ensures
        exists|name: Option<Seq<char>>| may_be_named(path@, name) && r == #[trigger] kind_named(name),
{
    let name: Option<String> = file_name(path);
    let ghost n = text_view(name);
    assert(may_be_named(path@, n));
    if name_has_extension(&name, "mp3") {
        assert(kind_named(n) == AudioFileKind::Mp3);
        AudioFileKind::Mp3
    } else {
        assert(kind_named(n) == AudioFileKind::Wav);
        AudioFileKind::Wav
    }
}

// ---------------------------------------------------------------------------
// Live capture and decoding
// ---------------------------------------------------------------------------

/// The device that live audio is captured from.
#[derive(Debug, Clone, Copy, PartialEq, Eq, Structural)]
pub enum CaptureDevice {
    /// The default input device.
    DefaultInput,
    /// The default output device, in loopback.
    DefaultOutput,
}

/// The device for a source, given whether output devices can be captured.
pub open spec fn device_for(source: SourceView, loopback_available: bool) -> Result<
    CaptureDevice,
    AudioErrorView,
> {
    match source {
        SourceView::Microphone => Ok(CaptureDevice::DefaultInput),
        SourceView::SystemAudio => if loopback_available {
            Ok(CaptureDevice::DefaultOutput)
        } else {
            Err(AudioErrorView::SystemAudioUnsupported)
        },
        SourceView::File(_) => Err(AudioErrorView::NotLive),
    }
}

/// The choice of a device, taken by its contents.
pub open spec fn device_view(r: Result<CaptureDevice, AudioError>) -> Result<
    CaptureDevice,
    AudioErrorView,
> {
    match r {
        Ok(device) => Ok(device),
        Err(e) => Err(e@),
    }
}

/// Chooses the device for a source, given whether output devices can be captured.
pub fn capture_device(source: &AudioSource, loopback_available: bool) -> (r: Result<
    CaptureDevice,
    AudioError,
>)
    ensures
        device_view(r) == device_for(source@, loopback_available),
        match source@ {
            SourceView::Microphone => r == Ok::<CaptureDevice, AudioError>(
                CaptureDevice::DefaultInput,
            ),
            SourceView::SystemAudio => if loopback_available {
                r == Ok::<CaptureDevice, AudioError>(CaptureDevice::DefaultOutput)
            } else {
                r matches Err(e) && e@ == AudioErrorView::SystemAudioUnsupported
            },
            SourceView::File(_) => r matches Err(e) && e@ == AudioErrorView::NotLive,
        },
{
    match source {
        AudioSource::Microphone => Ok(CaptureDevice::DefaultInput),
        AudioSource::SystemAudio => if loopback_available {
            Ok(CaptureDevice::DefaultOutput)
        } else {
            Err(AudioError::SystemAudioUnsupported)
        },
        AudioSource::File(_) => Err(AudioError::NotLive),
    }
}

/// Checks that samples were read from a file.
pub fn check_samples(count: usize, path: &str) -> (r: Result<(), AudioError>)
    ensures
        if count == 0 {
            r matches Err(e) && e@ == AudioErrorView::NoSamples(path@)
        } else {
            r is Ok
        },
{
    if count == 0 {
        Err(AudioError::NoSamples(path.to_string()))
    } else {
        Ok(())
    }
}

/// The samples of a WAV file, those of all channels in turn.
#[derive(Debug, PartialEq, Eq)]
pub enum WavSamples {
    /// Integers.  Full scale is two to the power of `exponent`.
    Integers { samples: Vec<i32>, exponent: u16 },
    /// Floating-point numbers, which are still to be read from the file.
    Floats,
}

/// A WAV file that was read.
#[derive(Debug, PartialEq, Eq)]
pub struct WavAudio {
    pub channels: u16,
    pub sample_rate: u32,
    pub samples: WavSamples,
}

/// A WAV file with its samples taken by their contents: the integers and the exponent of their
/// scale, or `None` for floating-point samples.
#[verifier::ext_equal]
pub struct WavView {
    pub channels: u16,
    pub sample_rate: u32,
    pub integers: Option<(Seq<i32>, int)>,
}

impl View for WavAudio {
    type V = WavView;

    open spec fn view(&self) -> WavView {
        WavView {
            channels: self.channels,
            sample_rate: self.sample_rate,
            integers: match self.samples {
                WavSamples::Integers { samples, exponent } => Some((samples@, exponent as int)),
                WavSamples::Floats => None,
            },
        }
    }
}

/// What a WAV file is taken for, given what its header says and its integer samples.
pub open spec fn wav_audio(
    header: Option<(u16, u32, u16, bool)>,
    integers: Option<Seq<i32>>,
    path: Seq<char>,
) -> Result<WavView, AudioErrorView> {
    match header {
        None => Err(AudioErrorView::Unreadable(path)),
        Some((channels, sample_rate, bits, is_float)) => if channels == 0 || sample_rate == 0 {
            Err(AudioErrorView::InvalidFormat(path))
        } else if is_float {
            Ok(WavView { channels, sample_rate, integers: None })
        } else {
            match integers {
                None => Err(AudioErrorView::Undecodable),
                Some(samples) => if samples.len() == 0 {
                    Err(AudioErrorView::NoSamples(path))
                } else {
                    Ok(
                        WavView {
                            channels,
                            sample_rate,
                            integers: Some((samples, if bits == 0 { 0 } else { bits - 1 })),
                        },
                    )
                },
            }
        },
    }
}

/// The result of reading a WAV file, taken by its contents.
pub open spec fn wav_result(r: Result<WavAudio, AudioError>) -> Result<WavView, AudioErrorView> {
    match r {
        Ok(audio) => Ok(audio@),
        Err(e) => Err(e@),
    }
}

/// Checks what was read of a WAV file: its header, and its integer samples.
pub fn check_wav(header: Option<WavHeader>, integers: Option<Vec<i32>>, path: &str) -> (r: Result<
    WavAudio,
    AudioError,
>)
    ensures
        wav_result(r) == wav_audio(header_view(header), samples_view(integers), path@),
{
    let h: WavHeader = match header {
        Some(h) => h,
        None => {
            return Err(AudioError::Unreadable(path.to_string()));
        },
    };
    if h.channels == 0 || h.sample_rate == 0 {
        return Err(AudioError::InvalidFormat(path.to_string()));
    }
    if h.is_float {
        return Ok(
            WavAudio {
                channels: h.channels,
                sample_rate: h.sample_rate,
                samples: WavSamples::Floats,
            },
        );
    }
    match integers {
        None => Err(AudioError::Undecodable),
        Some(samples) => {
            check_samples(samples.len(), path)?;
            let exponent: u16 = if h.bits_per_sample == 0 { 0 } else { h.bits_per_sample - 1 };
            let samples: WavSamples = WavSamples::Integers { samples, exponent };
            Ok(WavAudio { channels: h.channels, sample_rate: h.sample_rate, samples })
        },
    }
}

/// Reads a WAV file from its bytes.
pub fn load_wav(bytes: &[u8], path: &str) -> (r: Result<WavAudio, AudioError>)
    ensures
        wav_result(r) == wav_audio(wav_header(bytes@), wav_integers(bytes@), path@),
{
    let header: Option<WavHeader> = read_header(bytes);
    let integers: Option<Vec<i32>> = match header {
        Some(h) => if h.is_float {
            None
        } else {
            read_integers(bytes)
        },
        None => None,
    };
    check_wav(header, integers, path)
}

/// The contents of an audio file.
#[derive(Debug, PartialEq, Eq)]
pub enum DecodedAudio {
    Wav(WavAudio),
    Mp3(Mp3Audio),
}

/// Whether a result is what comes of a file that is taken for a WAV file.
pub open spec fn loaded_as_wav(
    r: Result<DecodedAudio, AudioError>,
    bytes: Seq<u8>,
    path: Seq<char>,
) -> bool {
    let expected = wav_audio(wav_header(bytes), wav_integers(bytes), path);
    match r {
        Ok(DecodedAudio::Wav(audio)) => expected == Ok::<WavView, AudioErrorView>(audio@),
        Ok(DecodedAudio::Mp3(_)) => false,
        Err(e) => expected == Err::<WavView, AudioErrorView>(e@),
    }
}

/// Whether a result is what comes of a file that is taken for an MP3 file, where the decoder
/// takes the given steps on its bytes.
pub open spec fn loaded_as_mp3(
    r: Result<DecodedAudio, AudioError>,
    bytes: Seq<u8>,
    steps: Seq<Mp3StepView>,
    path: Seq<char>,
) -> bool {
    let expected = mp3_audio(steps, path);
    &&& fully_decoded(bytes, steps, expected)
    &&& match r {
        Ok(DecodedAudio::Mp3(audio)) => expected == Ok::<
            (u32, Seq<Mp3FrameView>),
            AudioErrorView,
        >((audio.sample_rate, frame_views(audio.frames@))),
        Ok(DecodedAudio::Wav(_)) => false,
        Err(e) => expected == Err::<(u32, Seq<Mp3FrameView>), AudioErrorView>(e@),
    }
}

/// Load a WAV or MP3 file from its bytes.
pub fn load_audio_file(path: &str, bytes: &[u8]) -> (r: Result<DecodedAudio, AudioError>)
    ensures
        exists|name: Option<Seq<char>>|
            may_be_named(path@, name) && match #[trigger] kind_named(name) {
                AudioFileKind::Wav => loaded_as_wav(r, bytes@, path@),
                AudioFileKind::Mp3 => exists|steps: Seq<Mp3StepView>|
                    #[trigger] loaded_as_mp3(r, bytes@, steps, path@),
            },
{
    let kind: AudioFileKind = audio_file_kind(path);
    let ghost name = choose|name: Option<Seq<char>>|
        may_be_named(path@, name) && kind == #[trigger] kind_named(name);
    match kind {
        AudioFileKind::Mp3 => {
            let loaded: Result<Mp3Audio, AudioError> = load_mp3(bytes, path);
            let ghost steps = choose|steps: Seq<Mp3StepView>|
                fully_decoded(bytes@, steps, audio_view(loaded)) && audio_view(loaded)
                    == #[trigger] mp3_audio(steps, path@);
            let r: Result<DecodedAudio, AudioError> = match loaded {
                Ok(audio) => Ok(DecodedAudio::Mp3(audio)),
                Err(e) => Err(e),
            };
            assert(loaded_as_mp3(r, bytes@, steps, path@));
            assert(kind_named(name) == AudioFileKind::Mp3);
            r
        },
        AudioFileKind::Wav => {
            let r: Result<DecodedAudio, AudioError> = match load_wav(bytes, path) {
                Ok(audio) => Ok(DecodedAudio::Wav(audio)),
                Err(e) => Err(e),
            };
            assert(loaded_as_wav(r, bytes@, path@));
            assert(kind_named(name) == AudioFileKind::Wav);
            r
        },
    }
}

/// A tail holds no separator and is an end of its path, behind a separator where that is longer.
proof fn lemma_tail(path: Seq<char>)
    ensures
        tail(path).is_suffix_of(path),
        tail(path).len() < path.len() ==> is_separator(path[path.len() - tail(path).len() - 1]),
    decreases path.len(),
{
    if path.len() == 0 || is_separator(path.last()) {
        assert(path.subrange(path.len() as int, path.len() as int) =~= Seq::<char>::empty());
    } else {
        let front = path.drop_last();
        lemma_tail(front);
        let t = tail(front);
        assert forall|i: int| 0 <= i < tail(path).len() implies #[trigger] tail(path)[i]
            == path[path.len() - tail(path).len() + i] by {
            if i < t.len() {
                assert(front.subrange(front.len() - t.len(), front.len() as int)[i] == t[i]);
            }
        }
        assert(path.subrange(path.len() - tail(path).len(), path.len() as int) =~= tail(path));
    }
}

/// The end of a path decides what kind of file it leads to, on every system: where its tail has
/// an extension that is the file's, and where its tail has no dot the file has no extension that
/// is free of separators.
pub proof fn law_the_end_of_a_path_decides(
    path: Seq<char>,
    name: Option<Seq<char>>,
    wanted: Seq<char>,
)
    requires
        may_be_named(path, name),
        has_tail(path),
        forall|i: int| 0 <= i < wanted.len() ==> !is_separator(#[trigger] wanted[i]),
    ensures
        has_name(path) && extension(tail(without_end_slashes(path))) is Some ==> has_extension(
            name,
            wanted,
        ) == has_extension(Some(tail(without_end_slashes(path))), wanted),
        !tail(without_end_slashes(path)).contains('.') ==> !has_extension(name, wanted),
{
    let whole = without_end_slashes(path);
    let t = tail(whole);
    lemma_tail(whole);
    lemma_last_index_in(t, CharClass::Dot);
    if name is Some {
        let n = name->0;
        lemma_last_index_in(n, CharClass::Dot);
        let k = n.len() - t.len();
        let in_t = last_index_in(t, CharClass::Dot);
        let in_n = last_index_in(n, CharClass::Dot);
        assert forall|i: int| 0 <= i < t.len() implies #[trigger] n[k + i] == t[i] by {
            assert(n.subrange(k, n.len() as int)[i] == t[i]);
        }
        if in_t >= 0 {
            assert(n[k + in_t] == t[in_t]);
            if in_n > k + in_t {
                assert(n[k + (in_n - k)] == t[in_n - k]);
            }
            assert(in_n == k + in_t);
            assert(n.skip(in_n + 1) =~= t.skip(in_t + 1)) by {
                assert forall|i: int| 0 <= i < t.len() - in_t - 1 implies #[trigger] t.skip(
                    in_t + 1,
                )[i] == n.skip(in_n + 1)[i] by {
                    assert(n[k + (in_t + 1 + i)] == t[in_t + 1 + i]);
                }
            }
        } else if in_n >= 0 {
            // The dot stands in front of the tail, and so in front of a separator
            if in_n >= k {
                assert(n[k + (in_n - k)] == t[in_n - k]);
                assert(t[in_n - k] == '.');
            }
            assert(k > 0 && in_n < k);
            assert(n[k - 1] == whole[whole.len() - t.len() - 1]) by {
                let from = whole.len() - n.len();
                assert(whole.subrange(from, whole.len() as int)[k - 1] == n[k - 1]);
            }
            assert(in_n < k - 1);
            let e = n.skip(in_n + 1);
            let i = k - 1 - (in_n + 1);
            assert(e[i] == n[k - 1]);
            if has_extension(name, wanted) {
                assert(ascii_lowercase(e)[i] == ascii_lower(e[i]));
                assert(ascii_lowercase(wanted).len() == wanted.len());
                assert(ascii_lowercase(wanted)[i] == ascii_lower(wanted[i]));
                assert(is_separator(wanted[i]));
            }
        }
    }
}

/// A file that passes the check can be opened: it is there, and one of the decoders is for it.
pub proof fn law_checked_files_can_be_decoded(
    path: Seq<char>,
    name: Option<Seq<char>>,
    is_file: bool,
)
    requires
        checked_file(path, name, is_file) is Ok,
    ensures
        is_file,
        checked_file(path, name, is_file)->Ok_0 == SourceView::File(path),
        has_extension(name, "mp3"@) == (kind_named(name) == AudioFileKind::Mp3),
        !has_extension(name, "mp3"@) ==> has_extension(name, "wav"@),
{
}

/// What a result of loading an MP3 file says: the audio is all the frames that the decoder comes
/// upon in the bytes of the file, up to their end, each once and in order; where there is an error
/// there is no audio.
pub proof fn law_mp3_files_are_loaded_whole(
    r: Result<DecodedAudio, AudioError>,
    bytes: Seq<u8>,
    steps: Seq<Mp3StepView>,
    path: Seq<char>,
)
    requires
        loaded_as_mp3(r, bytes, steps, path),
    ensures
        decodes_to(bytes, steps),
        r matches Ok(audio) ==> (audio matches DecodedAudio::Mp3(mp3) && steps.last() is End
            && steps.len() == mp3.frames@.len() + 1 && mp3.frames@.len() > 0 && (forall|i: int|
            0 <= i < mp3.frames@.len() ==> #[trigger] steps[i] == Mp3StepView::Frame(
                mp3.frames@[i]@,
            )) && (forall|i: int|
            0 <= i < mp3.frames@.len() ==> (#[trigger] mp3.frames@[i]).sample_rate
                == mp3.sample_rate)),
        r matches Err(e) ==> e@ == AudioErrorView::NothingDecoded || e@
            == AudioErrorView::RateChanged(path),
        r is Err && steps.last() is End && steps.len() > 1 ==> r->Err_0@
            == AudioErrorView::RateChanged(path),
{
    let n = steps.len() - 1;
    if steps.last() is End {
        let frames = Seq::new(n as nat, |i: int| steps[i]->Frame_0);
        assert forall|i: int| 0 <= i < frames.len() implies #[trigger] steps[i]
            == Mp3StepView::Frame(frames[i]) by {
            assert(steps[i] is Frame);
        }
        law_an_mp3_file_is_decoded_whole(steps, frames, path);
        if let Ok(DecodedAudio::Mp3(mp3)) = r {
            assert(frame_views(mp3.frames@) == frames);
            assert forall|i: int| 0 <= i < mp3.frames@.len() implies #[trigger] steps[i]
                == Mp3StepView::Frame(mp3.frames@[i]@) by {
                assert(frames[i] == mp3.frames@[i]@);
            }
            assert forall|i: int| 0 <= i < mp3.frames@.len() implies (
            #[trigger] mp3.frames@[i]).sample_rate == mp3.sample_rate by {
                assert(frames[i] == mp3.frames@[i]@);
                assert(frames[i].sample_rate == frames[0].sample_rate);
            }
        }
    } else {
        let frames = Seq::new(steps.len(), |i: int| steps[i]->Frame_0);
        assert forall|i: int| 0 <= i < frames.len() implies #[trigger] steps[i]
            == Mp3StepView::Frame(frames[i]) by {
            assert(steps[i] is Frame);
        }
        lemma_frames_are_kept(steps, frames, path);
    }
}

/// What a result of loading a WAV file says, given its header and its integer samples: the audio
/// has the channels, the rate and all the samples that are in the file.
pub proof fn law_wav_files_are_loaded_whole(
    r: Result<DecodedAudio, AudioError>,
    bytes: Seq<u8>,
    path: Seq<char>,
)
    requires
        loaded_as_wav(r, bytes, path),
    ensures
        wav_header(bytes) is None ==> (r matches Err(e) && e@ == AudioErrorView::Unreadable(path)),
        wav_header(bytes) matches Some((channels, rate, bits, is_float)) ==> {
            &&& channels == 0 || rate == 0 ==> (r matches Err(e) && e@
                == AudioErrorView::InvalidFormat(path))
            &&& channels > 0 && rate > 0 && is_float ==> (r matches Ok(DecodedAudio::Wav(audio))
                && audio.channels == channels && audio.sample_rate == rate
                && audio.samples is Floats)
            &&& channels > 0 && rate > 0 && !is_float ==> match wav_integers(bytes) {
                None => r matches Err(e) && e@ == AudioErrorView::Undecodable,
                Some(all) => if all.len() == 0 {
                    r matches Err(e) && e@ == AudioErrorView::NoSamples(path)
                } else {
                    &&& r matches Ok(DecodedAudio::Wav(audio))
                    &&& audio.channels == channels
                    &&& audio.sample_rate == rate
                    &&& audio.samples matches WavSamples::Integers { samples, exponent }
                    &&& samples@ == all
                    &&& bits > 0 ==> exponent == bits - 1
                    &&& bits == 0 ==> exponent == 0
                },
            }
        },
{
}

/// The extension of a file name is what stands behind its last dot; a name with no dot, or with
/// its only dot at the start, has none.  The case of its letters does not matter.
pub proof fn law_extensions(stem: Seq<char>, ending: Seq<char>, wanted: Seq<char>)
    requires
        !ending.contains('.'),
    ensures
        stem.len() > 0 ==> extension(stem + seq!['.'] + ending) == Some(ending),
        extension(seq!['.'] + ending) is None,
        extension(ending) is None,
        stem.len() > 0 ==> has_extension(Some(stem + seq!['.'] + ending), wanted) == (
        ascii_lowercase(ending) == ascii_lowercase(wanted)),
        !has_extension(Some(ending), wanted),
        !has_extension(None, wanted),
{
    let d = CharClass::Dot;
    lemma_last_index_in(ending, d);
    if last_index_in(ending, d) >= 0 {
        assert(ending[last_index_in(ending, d)] == '.');
    }
    let hidden = seq!['.'] + ending;
    lemma_last_index_in(hidden, d);
    if last_index_in(hidden, d) > 0 {
        assert(hidden[last_index_in(hidden, d)] == ending[last_index_in(hidden, d) - 1]);
    }
    let name = stem + seq!['.'] + ending;
    let k = last_index_in(name, d);
    lemma_last_index_in(name, d);
    assert(name[stem.len() as int] == '.');
    if k > stem.len() {
        assert(name[k] == ending[k - stem.len() - 1]);
    }
    assert(name.skip(stem.len() as int + 1) =~= ending);
}

/// The check of a file: one that is not there is missing, one that is there is accepted where its
/// name ends in `wav` or `mp3`, and no other is; and the decoder goes by the name too.
pub proof fn law_what_a_check_says(path: Seq<char>, name: Option<Seq<char>>)
    ensures
        checked_file(path, name, false) == Err::<SourceView, AudioErrorView>(
            AudioErrorView::Missing(path),
        ),
        checked_file(path, name, true) == (if has_extension(name, "wav"@) || has_extension(
            name,
            "mp3"@,
        ) {
            Ok::<SourceView, AudioErrorView>(SourceView::File(path))
        } else {
            Err::<SourceView, AudioErrorView>(AudioErrorView::Unsupported)
        }),
        (kind_named(name) == AudioFileKind::Mp3) == has_extension(name, "mp3"@),
        name matches Some(n) ==> file_label(name) == "File: "@ + n,
        name is None ==> file_label(name) == "File: audio file"@,
{
    reveal_strlit("File: ");
    reveal_strlit("audio file");
    reveal_strlit("File: audio file");
    assert("File: "@ + "audio file"@ =~= "File: audio file"@);
}

/// The microphone is captured from the default input, system audio from the default output where
/// that can be captured, and a file from nowhere.
pub proof fn law_the_devices_of_sources(path: Seq<char>, loopback_available: bool)
    ensures
        device_for(SourceView::Microphone, loopback_available) == Ok::<
            CaptureDevice,
            AudioErrorView,
        >(CaptureDevice::DefaultInput),
        device_for(SourceView::SystemAudio, true) == Ok::<CaptureDevice, AudioErrorView>(
            CaptureDevice::DefaultOutput,
        ),
        device_for(SourceView::SystemAudio, false) == Err::<CaptureDevice, AudioErrorView>(
            AudioErrorView::SystemAudioUnsupported,
        ),
        device_for(SourceView::File(path), loopback_available) == Err::<
            CaptureDevice,
            AudioErrorView,
        >(AudioErrorView::NotLive),
{
}

/// What is wrong with an audio source is said in words.
pub proof fn law_what_is_said_of_audio(path: Seq<char>)
    ensures
        AudioErrorView::Missing(path).words() == "Audio file does not exist: "@ + path,
        AudioErrorView::Unsupported.words()
            == "Unsupported audio file. Typist accepts WAV and MP3 files."@,
        AudioErrorView::SystemAudioUnsupported.words()
            == "System audio capture is currently supported on Windows"@,
        AudioErrorView::NotLive.words() == "File is not a live audio source"@,
        AudioErrorView::Unreadable(path).words() == "Failed to open audio file: "@ + path,
        AudioErrorView::InvalidFormat(path).words() == "Audio file has an invalid WAV format: "@
            + path,
        AudioErrorView::Undecodable.words() == "Failed to decode PCM WAV sample"@,
        AudioErrorView::NoSamples(path).words() == "Audio file contains no samples: "@ + path,
        AudioErrorView::RateChanged(path).words() == "MP3 sample rate changes within "@ + path,
        AudioErrorView::Mp3Undecodable.words() == "Failed to decode MP3 audio"@,
        AudioErrorView::NothingDecoded.words() == "MP3 file contains no decodable audio"@,
{
}

/// A file is submitted whole: all its samples, at its rate, as one segment.
pub proof fn law_files_are_submitted_whole<F>(samples: Seq<F>, sample_rate: u32)
    ensures
        submitted(samples, sample_rate) is SpeechSegmentReady,
        submitted(samples, sample_rate)->samples == samples,
        submitted(samples, sample_rate)->sample_rate == sample_rate,
{
}

} // verus!
