//! MP3 files.
use crate::audio::{AudioError, AudioErrorView};
use vstd::prelude::*;

verus! {

/// A decoder of the `minimp3` crate.
#[verifier::external_type_specification]
#[verifier::external_body]
#[verifier::reject_recursive_types(R)]
pub struct ExDecoder<R>(minimp3::Decoder<R>);

/// A decoded frame.
#[derive(Debug, PartialEq, Eq)]
pub struct Mp3Frame {
    /// The samples, those of all channels in turn.
    pub samples: Vec<i16>,
    /// The number of samples per second in each channel.
    pub sample_rate: u32,
    /// The number of channels.
    pub channels: usize,
}

/// A frame with its samples taken by their contents.
#[verifier::ext_equal]
pub struct Mp3FrameView {
    pub samples: Seq<i16>,
    pub sample_rate: u32,
    pub channels: usize,
}

impl View for Mp3Frame {
    type V = Mp3FrameView;

    open spec fn view(&self) -> Mp3FrameView {
        Mp3FrameView {
            samples: self.samples@,
            sample_rate: self.sample_rate,
            channels: self.channels,
        }
    }
}

/// What the decoder comes upon.
#[derive(Debug, PartialEq, Eq)]
pub enum Mp3Step {
    /// A frame.
    Frame(Mp3Frame),
    /// The end of the file.
    End,
    /// The file cannot be read.
    Io,
    /// There is too little data for a frame.
    InsufficientData,
    /// Data was skipped that is no frame.
    SkippedData,
}

/// A step with its samples taken by their contents.
pub enum Mp3StepView {
    Frame(Mp3FrameView),
    End,
    Io,
    InsufficientData,
    SkippedData,
}

impl View for Mp3Step {
    type V = Mp3StepView;

    open spec fn view(&self) -> Mp3StepView {
        match *self {
            Mp3Step::Frame(frame) => Mp3StepView::Frame(frame@),
            Mp3Step::End => Mp3StepView::End,
            Mp3Step::Io => Mp3StepView::Io,
            Mp3Step::InsufficientData => Mp3StepView::InsufficientData,
            Mp3Step::SkippedData => Mp3StepView::SkippedData,
        }
    }
}

/// The bytes that a decoder was made for.
pub uninterp spec fn decoder_source(decoder: minimp3::Decoder<&[u8]>) -> Seq<u8>;

/// The steps that a decoder has taken.
pub uninterp spec fn decoder_taken(decoder: minimp3::Decoder<&[u8]>) -> Seq<Mp3StepView>;

/// The number of bytes that a decoder has yet to go through.
pub uninterp spec fn decoder_left(decoder: minimp3::Decoder<&[u8]>) -> nat;

/// Whether a row of steps is one that a decoder takes first on a row of bytes.  Machines may
/// differ in the samples of a frame, so there may be several such rows.
pub uninterp spec fn decodes_to(bytes: Seq<u8>, steps: Seq<Mp3StepView>) -> bool;

/// `minimp3::Decoder::new`, reading from memory: the decoder is for the bytes, has taken no step
/// and has gone through none of them.
#[verifier::external_body]
fn new_decoder<'a>(bytes: &'a [u8]) -> (r: minimp3::Decoder<&'a [u8]>)
    ensures
        decoder_source(r) == bytes@,
        decoder_taken(r) == Seq::<Mp3StepView>::empty(),
        decoder_left(r) <= bytes@.len(),
{
    minimp3::Decoder::new(bytes)
}

/// `minimp3::Decoder::next_frame`, reading from memory: the decoder takes one more step on its
/// bytes.  It goes over data that is no frame, and memory can always be read, so it comes upon
/// a frame or upon the end; and a frame takes at least one byte.  The values of the samples are
/// not said: they are computed in floating point, with the instructions that the machine has.
#[verifier::external_body]
fn next_step<'a>(decoder: &mut minimp3::Decoder<&'a [u8]>) -> (r: Mp3Step)
    ensures
        decoder_source(*final(decoder)) == decoder_source(*old(decoder)),
        decoder_taken(*final(decoder)) == decoder_taken(*old(decoder)).push(r@),
        decodes_to(decoder_source(*final(decoder)), decoder_taken(*final(decoder))),
        r is Frame || r is End,
        r is Frame ==> decoder_left(*final(decoder)) < decoder_left(*old(decoder)),
{
    match decoder.next_frame() {
        Ok(f) => Mp3Step::Frame(
            Mp3Frame {
                samples: f.data,
                sample_rate: f.sample_rate as u32,
                channels: f.channels,
            },
        ),
        Err(minimp3::Error::Eof) => Mp3Step::End,
        Err(minimp3::Error::Io(_)) => Mp3Step::Io,
        Err(minimp3::Error::InsufficientData) => Mp3Step::InsufficientData,
        Err(minimp3::Error::SkippedData) => Mp3Step::SkippedData,
    }
}

/// The frames of an MP3 file, as far as they have been decoded.
#[derive(Debug, PartialEq, Eq)]
pub struct Mp3Track {
    /// The sample rate of the frames; `None` where there is none yet.
    pub sample_rate: Option<u32>,
    /// The frames, in order.
    pub frames: Vec<Mp3Frame>,
}

/// A track with its frames taken by their contents.
#[verifier::ext_equal]
pub struct Mp3TrackView {
    pub sample_rate: Option<u32>,
    pub frames: Seq<Mp3FrameView>,
}

/// The frames of a list, taken by their contents.
pub open spec fn frame_views(frames: Seq<Mp3Frame>) -> Seq<Mp3FrameView> {
    frames.map_values(|f: Mp3Frame| f@)
}

impl View for Mp3Track {
    type V = Mp3TrackView;

    open spec fn view(&self) -> Mp3TrackView {
        Mp3TrackView { sample_rate: self.sample_rate, frames: frame_views(self.frames@) }
    }
}

impl Mp3TrackView {
    /// A track without frames.
    pub open spec fn empty() -> Mp3TrackView {
        Mp3TrackView { sample_rate: None, frames: Seq::empty() }
    }

    /// The track after a step of the decoder.  A frame has to have the sample rate of the frames
    /// before it.
    pub open spec fn after(self, step: Mp3StepView, path: Seq<char>) -> Result<
        Mp3TrackView,
        AudioErrorView,
    > {
        match step {
            Mp3StepView::Frame(frame) => if self.sample_rate is Some && self.sample_rate != Some(
                frame.sample_rate,
            ) {
                Err(AudioErrorView::RateChanged(path))
            } else {
                Ok(
                    Mp3TrackView {
                        sample_rate: Some(frame.sample_rate),
                        frames: self.frames.push(frame),
                    },
                )
            },
            Mp3StepView::End => Ok(self),
            _ => Err(AudioErrorView::Mp3Undecodable),
        }
    }
}

/// The track after a row of steps; the first error stands.
pub open spec fn track_after(steps: Seq<Mp3StepView>, path: Seq<char>) -> Result<
    Mp3TrackView,
    AudioErrorView,
>
    decreases steps.len(),
{
    if steps.len() == 0 {
        Ok(Mp3TrackView::empty())
    } else {
        match track_after(steps.drop_last(), path) {
            Ok(track) => track.after(steps.last(), path),
            Err(e) => Err(e),
        }
    }
}

/// What an MP3 file is taken for, given the steps of the decoder: its sample rate and its frames.
pub open spec fn mp3_audio(steps: Seq<Mp3StepView>, path: Seq<char>) -> Result<
    (u32, Seq<Mp3FrameView>),
    AudioErrorView,
> {
    match track_after(steps, path) {
        Ok(track) => match track.sample_rate {
            Some(rate) => Ok((rate, track.frames)),
            None => Err(AudioErrorView::NothingDecoded),
        },
        Err(e) => Err(e),
    }
}

/// A decoded MP3 file.
#[derive(Debug, PartialEq, Eq)]
pub struct Mp3Audio {
    pub sample_rate: u32,
    pub frames: Vec<Mp3Frame>,
}

/// The result of decoding, taken by its contents.
pub open spec fn audio_view(r: Result<Mp3Audio, AudioError>) -> Result<
    (u32, Seq<Mp3FrameView>),
    AudioErrorView,
> {
    match r {
        Ok(audio) => Ok((audio.sample_rate, frame_views(audio.frames@))),
        Err(e) => Err(e@),
    }
}

impl Mp3Track {
    /// A track without frames.
    pub fn new() -> (r: Mp3Track)
        ensures
            r@ == Mp3TrackView::empty(),
    {
        let r: Mp3Track = Mp3Track { sample_rate: None, frames: Vec::new() };
        assert(r@ =~= Mp3TrackView::empty());
        r
    }

    /// Takes in a step of the decoder, and says whether there may be more of them.
    pub fn accept(&mut self, step: Mp3Step, path: &str) -> (r: Result<bool, AudioError>)
        ensures
            match old(self)@.after(step@, path@) {
                Ok(track) => final(self)@ == track && r == Ok::<bool, AudioError>(
                    !(step is End),
                ),
                Err(e) => final(self)@ == old(self)@ && (r matches Err(f) && f@ == e),
            },
    {
        match step {
            Mp3Step::Frame(frame) => {
                if let Some(previous) = self.sample_rate {
                    if previous != frame.sample_rate {
                        return Err(AudioError::RateChanged(path.to_string()));
                    }
                }
                self.sample_rate = Some(frame.sample_rate);
                self.frames.push(frame);
                assert(self@.frames =~= old(self)@.frames.push(frame@));
                Ok(true)
            },
            Mp3Step::End => Ok(false),
            _ => Err(AudioError::Mp3Undecodable),
        }
    }

    /// The whole track.
    pub fn finish(self) -> (r: Result<Mp3Audio, AudioError>)
        ensures
            audio_view(r) == match self@.sample_rate {
                Some(rate) => Ok((rate, self@.frames)),
                None => Err(AudioErrorView::NothingDecoded),
            },
    {
        match self.sample_rate {
            Some(sample_rate) => Ok(Mp3Audio { sample_rate, frames: self.frames }),
            None => Err(AudioError::NothingDecoded),
        }
    }
}

/// Whether a decoder that takes the given steps on some bytes has been asked for all that the
/// result needs: up to the end of the bytes, or up to the step that is an error.
pub open spec fn fully_decoded(
    bytes: Seq<u8>,
    steps: Seq<Mp3StepView>,
    result: Result<(u32, Seq<Mp3FrameView>), AudioErrorView>,
) -> bool {
    &&& decodes_to(bytes, steps)
    &&& steps.len() > 0
    &&& forall|i: int| 0 <= i < steps.len() - 1 ==> (#[trigger] steps[i]) is Frame
    &&& steps.last() is End || (steps.last() is Frame && result is Err
        && result->Err_0 is RateChanged)
}

/// Decodes an MP3 file from its bytes.
///
/// The decoder is asked for one frame behind the other, up to the end of the bytes or the first
/// error, and the result is `mp3_audio` of what it came upon.
pub fn load_mp3(bytes: &[u8], path: &str) -> (r: Result<Mp3Audio, AudioError>)
    ensures
        exists|steps: Seq<Mp3StepView>|
            fully_decoded(bytes@, steps, audio_view(r)) && audio_view(r) == #[trigger] mp3_audio(
                steps,
                path@,
            ),
        bytes@.len() == 0 ==> (r matches Err(e) && e@ == AudioErrorView::NothingDecoded),
{
    let mut decoder: minimp3::Decoder<&[u8]> = new_decoder(bytes);
    let mut track: Mp3Track = Mp3Track::new();
    let mut more: bool = true;
    while more
        invariant
            decoder_source(decoder) == bytes@,
            more ==> decoder_left(decoder) <= bytes@.len(),
            ({
                let steps = decoder_taken(decoder);
                &&& track_after(steps, path@) == Ok::<Mp3TrackView, AudioErrorView>(track@)
                &&& forall|i: int|
                    0 <= i < steps.len() - (if more {
                        0int
                    } else {
                        1int
                    }) ==> (#[trigger] steps[i]) is Frame
                &&& !more ==> decodes_to(bytes@, steps) && steps.len() > 0 && steps.last() is End
            }),
            bytes@.len() == 0 ==> track@.sample_rate is None,
        decreases
                (if more {
                    1int
                } else {
                    0int
                }),
                decoder_left(decoder),
    {
        let ghost taken = decoder_taken(decoder);
        let step: Mp3Step = next_step(&mut decoder);
        let ghost steps = decoder_taken(decoder);
        assert(steps.drop_last() =~= taken);
        match track.accept(step, path) {
            Ok(go_on) => {
                more = go_on;
            },
            Err(e) => {
                let r: Result<Mp3Audio, AudioError> = Err(e);
                assert(audio_view(r) == mp3_audio(steps, path@));
                assert(fully_decoded(bytes@, steps, audio_view(r)));
                return r;
            },
        }
    }
    let ghost steps = decoder_taken(decoder);
    let r: Result<Mp3Audio, AudioError> = track.finish();
    assert(audio_view(r) == mp3_audio(steps, path@));
    assert(fully_decoded(bytes@, steps, audio_view(r)));
    r
}

/// A decoded file has one sample rate, and its frames are those that the decoder came upon.
pub proof fn law_an_mp3_file_has_one_rate(steps: Seq<Mp3StepView>, path: Seq<char>)
    requires
        mp3_audio(steps, path) is Ok,
    ensures
        ({
            let (rate, frames) = mp3_audio(steps, path)->Ok_0;
            &&& frames.len() > 0
            &&& forall|i: int|
                0 <= i < frames.len() ==> (#[trigger] frames[i]).sample_rate == rate
            &&& forall|i: int|
                0 <= i < frames.len() ==> steps.contains(Mp3StepView::Frame(#[trigger] frames[i]))
        }),
{
    lemma_track(steps, path);
}

proof fn lemma_track(steps: Seq<Mp3StepView>, path: Seq<char>)
    requires
        track_after(steps, path) is Ok,
    ensures
        ({
            let track = track_after(steps, path)->Ok_0;
            &&& track.sample_rate is Some == (track.frames.len() > 0)
            &&& forall|i: int|
                0 <= i < track.frames.len() ==> Some((#[trigger] track.frames[i]).sample_rate)
                    == track.sample_rate
            &&& forall|i: int|
                0 <= i < track.frames.len() ==> steps.contains(
                    Mp3StepView::Frame(#[trigger] track.frames[i]),
                )
        }),
    decreases steps.len(),
{
    if steps.len() > 0 {
        let front = steps.drop_last();
        lemma_track(front, path);
        let before = track_after(front, path)->Ok_0;
        let track = track_after(steps, path)->Ok_0;
        assert forall|i: int| 0 <= i < track.frames.len() implies steps.contains(
            Mp3StepView::Frame(#[trigger] track.frames[i]),
        ) by {
            if i < before.frames.len() {
                let wanted = Mp3StepView::Frame(before.frames[i]);
                assert(front.contains(wanted));
                let k = choose|k: int| 0 <= k < front.len() && front[k] == wanted;
                assert(steps[k] == wanted);
            } else {
                assert(steps[steps.len() - 1] == Mp3StepView::Frame(track.frames[i]));
            }
        }
    }
}

/// The track of a row of frames of one rate holds them all, each once and in order.
pub proof fn lemma_frames_are_kept(
    steps: Seq<Mp3StepView>,
    frames: Seq<Mp3FrameView>,
    path: Seq<char>,
)
    requires
        steps.len() == frames.len(),
        forall|i: int|
            0 <= i < frames.len() ==> #[trigger] steps[i] == Mp3StepView::Frame(frames[i]),
    ensures
        (forall|i: int|
            0 <= i < frames.len() ==> (#[trigger] frames[i]).sample_rate == frames[0].sample_rate)
            ==> track_after(steps, path) == Ok::<Mp3TrackView, AudioErrorView>(
            Mp3TrackView {
                sample_rate: if frames.len() == 0 {
                    None
                } else {
                    Some(frames[0].sample_rate)
                },
                frames,
            },
        ),
        !(forall|i: int|
            0 <= i < frames.len() ==> (#[trigger] frames[i]).sample_rate == frames[0].sample_rate)
            ==> track_after(steps, path) == Err::<Mp3TrackView, AudioErrorView>(
            AudioErrorView::RateChanged(path),
        ),
    decreases steps.len(),
{
    if steps.len() == 0 {
        assert(frames =~= Seq::<Mp3FrameView>::empty());
    } else {
        let front = steps.drop_last();
        let earlier = frames.drop_last();
        assert forall|i: int| 0 <= i < earlier.len() implies #[trigger] front[i]
            == Mp3StepView::Frame(earlier[i]) by {
            assert(steps[i] == Mp3StepView::Frame(frames[i]));
        }
        lemma_frames_are_kept(front, earlier, path);
        let n = frames.len() - 1;
        assert(steps[n] == Mp3StepView::Frame(frames[n]));
        assert(earlier.push(frames[n]) =~= frames);
        if forall|i: int|
            0 <= i < frames.len() ==> (#[trigger] frames[i]).sample_rate == frames[0].sample_rate {
            assert forall|i: int| 0 <= i < earlier.len() implies (
            #[trigger] earlier[i]).sample_rate == earlier[0].sample_rate by {
                assert(frames[i].sample_rate == frames[0].sample_rate);
            }
            assert(frames[n].sample_rate == frames[0].sample_rate);
        } else if forall|i: int|
            0 <= i < earlier.len() ==> (#[trigger] earlier[i]).sample_rate
                == earlier[0].sample_rate {
            if earlier.len() == 0 || frames[n].sample_rate == frames[0].sample_rate {
                assert forall|i: int| 0 <= i < frames.len() implies (
                #[trigger] frames[i]).sample_rate == frames[0].sample_rate by {
                    if i < n {
                        assert(earlier[i].sample_rate == earlier[0].sample_rate);
                    }
                }
                assert(false);
            }
        }
    }
}

/// A file is decoded whole: where the decoder comes upon some frames and then the end, the audio
/// is all of these frames, each once and in order, at the rate that they have in common.  Without
/// frames, and with frames of different rates, there is no audio.
pub proof fn law_an_mp3_file_is_decoded_whole(
    steps: Seq<Mp3StepView>,
    frames: Seq<Mp3FrameView>,
    path: Seq<char>,
)
    requires
        steps.len() == frames.len() + 1,
        forall|i: int|
            0 <= i < frames.len() ==> #[trigger] steps[i] == Mp3StepView::Frame(frames[i]),
        steps.last() is End,
    ensures
        frames.len() == 0 ==> mp3_audio(steps, path) == Err::<
            (u32, Seq<Mp3FrameView>),
            AudioErrorView,
        >(AudioErrorView::NothingDecoded),
        frames.len() > 0 && (forall|i: int|
            0 <= i < frames.len() ==> (#[trigger] frames[i]).sample_rate == frames[0].sample_rate)
            ==> mp3_audio(steps, path) == Ok::<(u32, Seq<Mp3FrameView>), AudioErrorView>(
            (frames[0].sample_rate, frames),
        ),
        !(forall|i: int|
            0 <= i < frames.len() ==> (#[trigger] frames[i]).sample_rate == frames[0].sample_rate)
            ==> mp3_audio(steps, path) == Err::<(u32, Seq<Mp3FrameView>), AudioErrorView>(
            AudioErrorView::RateChanged(path),
        ),
{
    let front = steps.drop_last();
    assert forall|i: int| 0 <= i < frames.len() implies #[trigger] front[i]
        == Mp3StepView::Frame(frames[i]) by {
        assert(steps[i] == Mp3StepView::Frame(frames[i]));
    }
    lemma_frames_are_kept(front, frames, path);
}

/// A step that is neither a frame nor the end is an error, whatever comes behind it.
pub proof fn law_a_decoding_error_stands(steps: Seq<Mp3StepView>, path: Seq<char>, k: int)
    requires
        0 <= k < steps.len(),
        track_after(steps.take(k), path) is Ok,
        !(steps[k] is Frame),
        !(steps[k] is End),
    ensures
        mp3_audio(steps, path) == Err::<(u32, Seq<Mp3FrameView>), AudioErrorView>(
            AudioErrorView::Mp3Undecodable,
        ),
    decreases steps.len(),
{
    if k == steps.len() - 1 {
        assert(steps.drop_last() =~= steps.take(k));
    } else {
        let front = steps.drop_last();
        assert(front.take(k) =~= steps.take(k));
        law_a_decoding_error_stands(front, path, k);
    }
}

/// The decoder is asked for every frame up to the end of the bytes, unless the rate changes.
pub proof fn law_nothing_of_a_file_is_left_undecoded(
    bytes: Seq<u8>,
    steps: Seq<Mp3StepView>,
    result: Result<(u32, Seq<Mp3FrameView>), AudioErrorView>,
)
    requires
        fully_decoded(bytes, steps, result),
    ensures
        decodes_to(bytes, steps),
        steps.len() > 0,
        forall|i: int| 0 <= i < steps.len() - 1 ==> (#[trigger] steps[i]) is Frame,
        result is Ok ==> steps.last() is End,
        result is Err && !(result->Err_0 is RateChanged) ==> steps.last() is End,
{
}

} // verus!
