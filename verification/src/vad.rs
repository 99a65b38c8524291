//! Voice activity detection: cutting a stream of audio chunks into speech segments.
//!
//! Whether a chunk is loud is decided outside, by comparing its level with a threshold.  What
//! follows from it is decided here.
use crate::events::{event_views, AppEvent, EventView};
use vstd::prelude::*;

verus! {

/// Configuration for the voice activity detection processor.
#[derive(Debug, Clone, Copy, PartialEq, Eq, Structural)]
pub struct VadConfig {
    /// Number of consecutive silent samples needed to end a speech segment.
    pub silence_duration_samples: usize,
    /// Maximum number of samples in a single speech segment.
    pub max_samples: usize,
    /// Minimum number of speech samples to consider it valid (rejects noise bursts).
    pub min_speech_samples: usize,
}

/// Detects speech boundaries in a stream of audio chunks.
#[derive(Debug)]
pub struct VadProcessor<T> {
    config: VadConfig,
    sample_rate: u32,
    speech_buffer: Vec<T>,
    is_speaking: bool,
    silence_sample_count: usize,
    speech_sample_count: usize,
    is_continued: bool,
}

/// The pieces of the greatest length that are cut off the start of a recording, as long as more
/// of it than that is left.
pub open spec fn full_pieces<T>(s: Seq<T>, max: nat) -> Seq<Seq<T>>
    decreases s.len(),
{
    if max == 0 || s.len() <= max {
        Seq::empty()
    } else {
        seq![s.take(max as int)] + full_pieces(s.skip(max as int), max)
    }
}

/// What is left of a recording behind its full pieces.
pub open spec fn last_piece<T>(s: Seq<T>, max: nat) -> Seq<T>
    decreases s.len(),
{
    if max == 0 {
        Seq::empty()
    } else if s.len() <= max {
        s
    } else {
        last_piece(s.skip(max as int), max)
    }
}

/// A recording cut to a length.
pub open spec fn cut<T>(s: Seq<T>, max: nat) -> Seq<T> {
    if s.len() <= max {
        s
    } else {
        s.take(max as int)
    }
}

/// The state of a detector: whether someone is speaking, what has been recorded, how many
/// samples of it are speech, how many silent ones have come since, and whether it continues
/// speech of which a full segment has been cut off.
#[verifier::ext_equal]
pub struct VadView<T> {
    pub config: VadConfig,
    pub sample_rate: u32,
    pub buffer: Seq<T>,
    pub speaking: bool,
    pub silence: nat,
    pub speech: nat,
    pub continued: bool,
}

impl<T> VadView<T> {
    /// The invariant of detectors: no more is recorded than a segment may hold, what is counted
    /// has been recorded, and nothing is recorded while nobody speaks.
    pub open spec fn well_formed(self) -> bool {
        &&& self.buffer.len() <= self.config.max_samples
        &&& self.silence <= self.buffer.len()
        &&& self.speech <= self.buffer.len()
        &&& !self.speaking ==> self.buffer.len() == 0 && !self.continued
    }

    /// A detector that has heard nothing.
    pub open spec fn idle(config: VadConfig, sample_rate: u32) -> VadView<T> {
        VadView {
            config,
            sample_rate,
            buffer: Seq::empty(),
            speaking: false,
            silence: 0,
            speech: 0,
            continued: false,
        }
    }

    /// The greatest length of a segment.
    pub open spec fn limit(self) -> nat {
        self.config.max_samples as nat
    }

    /// Whether a silent chunk ends the segment: whether the silence has lasted long enough.
    pub open spec fn pause_ends_speech(self, chunk: Seq<T>) -> bool {
        self.silence + chunk.len() >= self.config.silence_duration_samples
    }

    /// Whether the recording with a silent chunk is too long to wait for more.
    pub open spec fn too_long(self, chunk: Seq<T>) -> bool {
        self.buffer.len() + chunk.len() >= self.config.max_samples
    }

    /// Whether what has been recorded is more than a noise burst: it holds enough speech, or
    /// continues speech that did.
    pub open spec fn is_valid(self) -> bool {
        self.continued || self.speech >= self.config.min_speech_samples
    }

    /// The state after a chunk.
    ///
    /// A loud chunk is recorded, and each time that a segment is full a new one is begun.  A
    /// silent chunk is recorded while someone speaks, unless it ends the recording.
    pub open spec fn after(self, loud: bool, chunk: Seq<T>) -> VadView<T> {
        let recorded = self.buffer + chunk;
        if loud {
            VadView {
                buffer: last_piece(recorded, self.limit()),
                speaking: true,
                silence: 0,
                speech: if recorded.len() <= self.limit() {
                    self.speech + chunk.len()
                } else {
                    last_piece(recorded, self.limit()).len()
                },
                continued: self.continued || recorded.len() > self.limit(),
                ..self
            }
        } else if !self.speaking {
            self
        } else if self.pause_ends_speech(chunk) || self.too_long(chunk) {
            VadView::idle(self.config, self.sample_rate)
        } else {
            VadView { buffer: recorded, silence: self.silence + chunk.len(), ..self }
        }
    }

    /// The segments that a chunk completes.  Where a segment may hold nothing there are none.
    pub open spec fn segments(self, loud: bool, chunk: Seq<T>) -> Seq<Seq<T>> {
        let recorded = self.buffer + chunk;
        if self.limit() == 0 {
            Seq::empty()
        } else if loud {
            full_pieces(recorded, self.limit())
        } else if !self.speaking {
            Seq::empty()
        } else if self.pause_ends_speech(chunk) {
            if self.is_valid() {
                seq![cut(recorded, self.limit())]
            } else {
                Seq::empty()
            }
        } else if self.too_long(chunk) {
            seq![cut(recorded, self.limit())]
        } else {
            Seq::empty()
        }
    }

    /// The events that a chunk gives rise to: its level, the start of speech where it is one,
    /// and the segments that it completes.
    pub open spec fn events(self, level: T, loud: bool, chunk: Seq<T>) -> Seq<EventView<T>> {
        seq![EventView::AudioLevelUpdate(level)] + (if loud && !self.speaking {
            seq![EventView::SpeechStarted]
        } else {
            Seq::empty()
        }) + segment_events(self.segments(loud, chunk), self.sample_rate)
    }
}

impl<T> View for VadProcessor<T> {
    type V = VadView<T>;

    closed spec fn view(&self) -> VadView<T> {
        VadView {
            config: self.config,
            sample_rate: self.sample_rate,
            buffer: self.speech_buffer@,
            speaking: self.is_speaking,
            silence: self.silence_sample_count as nat,
            speech: self.speech_sample_count as nat,
            continued: self.is_continued,
        }
    }
}

impl<T: Copy> VadProcessor<T> {
    /// A detector that has heard nothing.
    pub fn new(config: VadConfig, sample_rate: u32) -> (r: VadProcessor<T>)
        ensures
            r@ == VadView::<T>::idle(config, sample_rate),
            r@.well_formed(),
    {
        VadProcessor {
            config,
            sample_rate,
            speech_buffer: Vec::new(),
            is_speaking: false,
            silence_sample_count: 0,
            speech_sample_count: 0,
            is_continued: false,
        }
    }

    /// Adds a silent chunk to what has been recorded.
    fn record(&mut self, chunk: &[T])
        ensures
            final(self)@ == (VadView { buffer: old(self)@.buffer + chunk@, ..old(self)@ }),
            final(self)@.buffer.len() <= usize::MAX,
    {
        let mut i: usize = 0;
        while i < chunk.len()
            invariant
                i <= chunk@.len(),
                self@ == (VadView { buffer: old(self)@.buffer + chunk@.take(i as int), ..old(self)@ }),
            decreases chunk@.len() - i,
        {
            self.speech_buffer.push(chunk[i]);
            assert(self@.buffer =~= old(self)@.buffer + chunk@.take(i + 1));
            i = i + 1;
        }
        assert(chunk@.take(i as int) =~= chunk@);
        assert(self.speech_buffer@.len() == self.speech_buffer.len());
    }

    /// Takes what has been recorded.
    fn take_segment(&mut self) -> (r: Vec<T>)
        ensures
            r@ == old(self)@.buffer,
            final(self)@ == (VadView { buffer: Seq::empty(), ..old(self)@ }),
    {
        let mut segment: Vec<T> = Vec::new();
        std::mem::swap(&mut segment, &mut self.speech_buffer);
        segment
    }

    /// The event for a segment.
    fn segment_event(&self, samples: Vec<T>) -> (r: AppEvent<T>)
        ensures
            r@ == (EventView::SpeechSegmentReady {
                samples: samples@,
                sample_rate: self@.sample_rate,
            }),
    {
        AppEvent::SpeechSegmentReady { samples, sample_rate: self.sample_rate }
    }

    /// Adds a loud chunk to what has been recorded, and gives the segments that get full on the
    /// way.
    fn record_speech(&mut self, chunk: &[T]) -> (r: Vec<AppEvent<T>>)
        requires
            old(self)@.limit() > 0,
            old(self)@.buffer.len() <= old(self)@.limit(),
        ensures
            final(self)@ == (VadView {
                buffer: last_piece(old(self)@.buffer + chunk@, old(self)@.limit()),
                ..old(self)@
            }),
            event_views(r@) == segment_events(
                full_pieces(old(self)@.buffer + chunk@, old(self)@.limit()),
                old(self)@.sample_rate,
            ),
    {
        let ghost max = old(self)@.limit();
        let ghost start = old(self)@.buffer;
        let mut events: Vec<AppEvent<T>> = Vec::new();
        let mut i: usize = 0;
        assert(start + chunk@.take(0) =~= start);
        assert(event_views(events@) =~= segment_events(
            full_pieces(start, max),
            old(self)@.sample_rate,
        ));
        while i < chunk.len()
            invariant
                i <= chunk@.len(),
                max > 0,
                max == old(self)@.limit(),
                start == old(self)@.buffer,
                self@ == (VadView {
                    buffer: last_piece(start + chunk@.take(i as int), max),
                    ..old(self)@
                }),
                event_views(events@) == segment_events(
                    full_pieces(start + chunk@.take(i as int), max),
                    old(self)@.sample_rate,
                ),
            decreases chunk@.len() - i,
        {
            let ghost so_far = start + chunk@.take(i as int);
            let ghost sent = full_pieces(so_far, max);
            let ghost before = events@;
            proof {
                lemma_pieces_push(so_far, chunk@[i as int], max);
                assert(start + chunk@.take(i + 1) =~= so_far.push(chunk@[i as int]));
            }
            if self.speech_buffer.len() >= self.config.max_samples {
                let segment: Vec<T> = self.take_segment();
                let ghost full = segment@;
                let event: AppEvent<T> = self.segment_event(segment);
                events.push(event);
                assert(event_views(events@) =~= event_views(before).push(event@));
                assert(segment_events(sent.push(full), old(self)@.sample_rate) =~= segment_events(
                    sent,
                    old(self)@.sample_rate,
                ).push(event@));
            }
            self.speech_buffer.push(chunk[i]);
            assert(self@.buffer =~= last_piece(start + chunk@.take(i + 1), max));
            i = i + 1;
        }
        assert(chunk@.take(i as int) =~= chunk@);
        events
    }

    /// Takes in an audio chunk, with its level and whether that is above the threshold, and
    /// gives the events that it leads to.
    pub fn push_chunk(&mut self, level: T, loud: bool, chunk: &[T]) -> (r: Vec<AppEvent<T>>)
        requires
            old(self)@.well_formed(),
        ensures
            event_views(r@) == old(self)@.events(level, loud, chunk@),
            final(self)@ == old(self)@.after(loud, chunk@),
            final(self)@.well_formed(),
    {
        let ghost s = old(self)@;
        let ghost recorded = s.buffer + chunk@;
        let mut events: Vec<AppEvent<T>> = Vec::new();
        // Level for the VU meter
        events.push(AppEvent::AudioLevelUpdate(level));
        proof {
            if s.limit() > 0 {
                lemma_pieces(recorded, s.limit());
            }
        }
        if loud {
            if !self.is_speaking {
                self.is_speaking = true;
                events.push(AppEvent::SpeechStarted);
            }
            let fits: bool = chunk.len() <= self.config.max_samples - self.speech_buffer.len();
            let ghost before = events@;
            let mut full: Vec<AppEvent<T>> = if self.config.max_samples > 0 {
                self.record_speech(chunk)
            } else {
                Vec::new()
            };
            let ghost added = full@;
            events.append(&mut full);
            self.silence_sample_count = 0;
            if fits {
                self.speech_sample_count = self.speech_sample_count + chunk.len();
            } else {
                self.speech_sample_count = self.speech_buffer.len();
                self.is_continued = true;
            }
            assert(event_views(events@) =~= event_views(before) + event_views(added));
        } else if self.is_speaking {
            // Was speaking, now silent: accumulate silence
            self.record(chunk);
            self.silence_sample_count = self.silence_sample_count + chunk.len();
            let over: bool = self.silence_sample_count >= self.config.silence_duration_samples;
            if over || self.speech_buffer.len() >= self.config.max_samples {
                // Speech ended, or the segment is full: send it, unless it holds too little speech
                let mut segment: Vec<T> = self.take_segment();
                let valid: bool = self.is_continued || self.speech_sample_count
                    >= self.config.min_speech_samples;
                if self.config.max_samples > 0 && (valid || !over) {
                    segment.truncate(self.config.max_samples);
                    assert(segment@ =~= cut(recorded, s.limit()));
                    let event: AppEvent<T> = self.segment_event(segment);
                    events.push(event);
                }
                self.is_speaking = false;
                self.silence_sample_count = 0;
                self.speech_sample_count = 0;
                self.is_continued = false;
            }
        }
        assert(event_views(events@) =~= s.events(level, loud, chunk@));
        assert(self@ =~= s.after(loud, chunk@));
        events
    }
}

/// The events for a row of segments.
pub open spec fn segment_events<T>(segments: Seq<Seq<T>>, sample_rate: u32) -> Seq<EventView<T>> {
    segments.map_values(
        |samples: Seq<T>| EventView::SpeechSegmentReady { samples, sample_rate },
    )
}

/// One behind the other, the parts of a row of segments.
pub open spec fn flat<T>(segments: Seq<Seq<T>>) -> Seq<T>
    decreases segments.len(),
{
    if segments.len() == 0 {
        Seq::empty()
    } else {
        flat(segments.drop_last()) + segments.last()
    }
}

/// The parts of two rows of segments are those of the first and then those of the second.
proof fn lemma_flat_add<T>(a: Seq<Seq<T>>, b: Seq<Seq<T>>)
    ensures
        flat(a + b) == flat(a) + flat(b),
    decreases b.len(),
{
    if b.len() == 0 {
        assert(a + b =~= a);
        assert(flat(a) + flat(b) =~= flat(a));
    } else {
        lemma_flat_add(a, b.drop_last());
        assert((a + b).drop_last() =~= a + b.drop_last());
        assert((a + b).last() == b.last());
        assert(flat(a + b) =~= flat(a) + flat(b));
    }
}

/// The pieces of a recording are full, the last one is not longer, and together they are the
/// recording.
proof fn lemma_pieces<T>(s: Seq<T>, max: nat)
    requires
        max > 0,
    ensures
        forall|i: int|
            0 <= i < full_pieces(s, max).len() ==> (#[trigger] full_pieces(s, max)[i]).len() == max,
        last_piece(s, max).len() <= max,
        s.len() > 0 ==> last_piece(s, max).len() > 0,
        flat(full_pieces(s, max)) + last_piece(s, max) == s,
    decreases s.len(),
{
    if s.len() <= max {
        assert(flat(full_pieces(s, max)) + s =~= s);
    } else {
        let head = s.take(max as int);
        let rest = s.skip(max as int);
        lemma_pieces(rest, max);
        let more = full_pieces(rest, max);
        let one: Seq<Seq<T>> = seq![head];
        assert(full_pieces(s, max) == one + more);
        lemma_flat_add(one, more);
        assert(one.drop_last() =~= Seq::<Seq<T>>::empty());
        assert(flat(Seq::<Seq<T>>::empty()) =~= Seq::<T>::empty());
        assert(flat(one) =~= head);
        assert(flat(one + more) + last_piece(rest, max) =~= head + (flat(more) + last_piece(
            rest,
            max,
        )));
        assert(head + rest =~= s);
    }
}

/// One more sample goes to the last piece, or begins a new one where that is full.
proof fn lemma_pieces_push<T>(s: Seq<T>, x: T, max: nat)
    requires
        max > 0,
    ensures
        last_piece(s, max).len() >= max ==> full_pieces(s.push(x), max) == full_pieces(s, max).push(
            last_piece(s, max),
        ) && last_piece(s.push(x), max) == seq![x],
        last_piece(s, max).len() < max ==> full_pieces(s.push(x), max) == full_pieces(s, max)
            && last_piece(s.push(x), max) == last_piece(s, max).push(x),
    decreases s.len(),
{
    let t = s.push(x);
    if s.len() < max {
    } else if s.len() == max {
        assert(t.take(max as int) =~= s);
        assert(t.skip(max as int) =~= seq![x]);
        assert(full_pieces(t.skip(max as int), max) =~= Seq::<Seq<T>>::empty());
        assert(last_piece(t.skip(max as int), max) == t.skip(max as int));
        assert(full_pieces(t, max) =~= full_pieces(s, max).push(s));
    } else {
        let rest = s.skip(max as int);
        lemma_pieces_push(rest, x, max);
        assert(t.take(max as int) =~= s.take(max as int));
        assert(t.skip(max as int) =~= rest.push(x));
        let head: Seq<Seq<T>> = seq![s.take(max as int)];
        assert(head + full_pieces(rest, max).push(last_piece(rest, max)) =~= (head + full_pieces(
            rest,
            max,
        )).push(last_piece(rest, max)));
    }
}

/// While nobody speaks, quiet audio leaves no trace but its level.
pub proof fn law_ambient_noise_is_ignored<T>(s: VadView<T>, level: T, chunk: Seq<T>)
    requires
        s.well_formed(),
        !s.speaking,
    ensures
        s.after(false, chunk) == s,
        s.events(level, false, chunk) == seq![EventView::AudioLevelUpdate(level)],
{
    assert(s.events(level, false, chunk) =~= seq![EventView::AudioLevelUpdate(level)]);
}

/// No segment is longer than the limit, whatever the chunks are.
pub proof fn law_segments_keep_to_the_limit<T>(s: VadView<T>, loud: bool, chunk: Seq<T>)
    ensures
        forall|i: int|
            0 <= i < s.segments(loud, chunk).len() ==> (#[trigger] s.segments(loud, chunk)[i]).len()
                <= s.config.max_samples,
{
    if s.limit() > 0 {
        lemma_pieces(s.buffer + chunk, s.limit());
    }
}

/// A loud chunk is kept whole: the segments that it fills and what is recorded then are, one behind
/// the other, what was recorded before and the chunk.  The segments are full, and the last sample
/// is not sent yet.
pub proof fn law_loud_chunks_are_kept_whole<T>(s: VadView<T>, chunk: Seq<T>)
    requires
        s.limit() > 0,
    ensures
        s.after(true, chunk).speaking,
        flat(s.segments(true, chunk)) + s.after(true, chunk).buffer == s.buffer + chunk,
        forall|i: int|
            0 <= i < s.segments(true, chunk).len() ==> (#[trigger] s.segments(true, chunk)[i]).len()
                == s.config.max_samples,
        s.after(true, chunk).buffer.len() <= s.config.max_samples,
        s.buffer.len() + chunk.len() > 0 ==> s.after(true, chunk).buffer.len() > 0,
{
    lemma_pieces(s.buffer + chunk, s.limit());
}

/// While someone speaks, a silent chunk is added to the recording; or the recording with the
/// chunk, as far as it is within the limit, is the one segment that is sent; or it is dropped
/// because it holds too little speech.
pub proof fn law_a_pause_sends_the_recording<T>(s: VadView<T>, chunk: Seq<T>)
    requires
        s.well_formed(),
        s.speaking,
        s.limit() > 0,
    ensures
        ({
            let recorded = s.buffer + chunk;
            let after = s.after(false, chunk);
            let sent = s.segments(false, chunk);
            ||| after.speaking && after.buffer == recorded && sent.len() == 0
            ||| !after.speaking && after.buffer.len() == 0 && sent == seq![
                cut(recorded, s.limit()),
            ]
            ||| !after.speaking && after.buffer.len() == 0 && sent.len() == 0 && !s.is_valid()
        }),
{
}

/// A noise burst is rejected: when silence ends a recording with too little speech in it, and
/// nothing was cut off before, nothing is sent.
pub proof fn law_noise_bursts_are_rejected<T>(s: VadView<T>, chunk: Seq<T>)
    requires
        s.well_formed(),
        s.speaking,
        s.limit() > 0,
        s.pause_ends_speech(chunk),
        !s.is_valid(),
    ensures
        s.segments(false, chunk).len() == 0,
        !s.after(false, chunk).speaking,
{
}

/// Speech that was long enough is sent when the silence behind it has lasted long enough, and so
/// is what continues it, however short.
pub proof fn law_finished_speech_is_sent<T>(s: VadView<T>, chunk: Seq<T>)
    requires
        s.well_formed(),
        s.speaking,
        s.limit() > 0,
        s.pause_ends_speech(chunk),
        s.is_valid(),
    ensures
        s.segments(false, chunk) == seq![cut(s.buffer + chunk, s.limit())],
        !s.after(false, chunk).speaking,
{
}

/// After a pause the recording is shorter than the limit.
pub proof fn law_pauses_end_long_recordings<T>(s: VadView<T>, chunk: Seq<T>)
    requires
        s.well_formed(),
        s.limit() > 0,
    ensures
        s.after(false, chunk).buffer.len() < s.config.max_samples,
{
}

/// A row of chunks, each with whether it is loud, taken in one behind the other.
pub open spec fn heard<T>(s: VadView<T>, chunks: Seq<(bool, Seq<T>)>) -> VadView<T>
    decreases chunks.len(),
{
    if chunks.len() == 0 {
        s
    } else {
        heard(s, chunks.drop_last()).after(chunks.last().0, chunks.last().1)
    }
}

/// The segments that a row of chunks completes, in order.
pub open spec fn sent<T>(s: VadView<T>, chunks: Seq<(bool, Seq<T>)>) -> Seq<Seq<T>>
    decreases chunks.len(),
{
    if chunks.len() == 0 {
        Seq::empty()
    } else {
        sent(s, chunks.drop_last()) + heard(s, chunks.drop_last()).segments(
            chunks.last().0,
            chunks.last().1,
        )
    }
}

/// The samples of a row of chunks, in order.
pub open spec fn all_samples<T>(chunks: Seq<(bool, Seq<T>)>) -> Seq<T>
    decreases chunks.len(),
{
    if chunks.len() == 0 {
        Seq::empty()
    } else {
        all_samples(chunks.drop_last()) + chunks.last().1
    }
}

/// Whether a part stands in a row without gaps.
pub open spec fn is_stretch_of<T>(part: Seq<T>, all: Seq<T>) -> bool {
    exists|i: int|
        0 <= i <= all.len() - part.len() && #[trigger] all.subrange(i, i + part.len()) == part
}

/// Over a whole session every segment keeps to the limit.
pub proof fn law_every_segment_keeps_to_the_limit<T>(s: VadView<T>, chunks: Seq<(bool, Seq<T>)>)
    ensures
        heard(s, chunks).config == s.config,
        forall|i: int|
            0 <= i < sent(s, chunks).len() ==> (#[trigger] sent(s, chunks)[i]).len()
                <= s.config.max_samples,
    decreases chunks.len(),
{
    if chunks.len() > 0 {
        let front = chunks.drop_last();
        law_every_segment_keeps_to_the_limit(s, front);
        let t = heard(s, front);
        law_segments_keep_to_the_limit(t, chunks.last().0, chunks.last().1);
        let a = sent(s, front);
        let b = t.segments(chunks.last().0, chunks.last().1);
        assert forall|i: int| 0 <= i < sent(s, chunks).len() implies (
        #[trigger] sent(s, chunks)[i]).len() <= s.config.max_samples by {
            if i >= a.len() {
                assert(sent(s, chunks)[i] == b[i - a.len()]);
            }
        }
    }
}

/// What is being recorded is the latest stretch of the audio, and every segment that a further
/// chunk completes is a stretch of it: nothing in between is left out.
pub proof fn law_recordings_have_no_gaps<T>(
    s: VadView<T>,
    chunks: Seq<(bool, Seq<T>)>,
    loud: bool,
    chunk: Seq<T>,
)
    requires
        s.well_formed(),
        !s.speaking,
    ensures
        heard(s, chunks).well_formed(),
        heard(s, chunks).buffer.is_suffix_of(all_samples(chunks)),
        forall|i: int|
            0 <= i < heard(s, chunks).segments(loud, chunk).len() ==> is_stretch_of(
                #[trigger] heard(s, chunks).segments(loud, chunk)[i],
                all_samples(chunks) + chunk,
            ),
    decreases chunks.len(),
{
    let t = heard(s, chunks);
    if chunks.len() > 0 {
        let front = chunks.drop_last();
        let last = chunks.last();
        law_recordings_have_no_gaps(s, front, last.0, last.1);
        let u = heard(s, front);
        let recorded = u.buffer + last.1;
        lemma_suffix_grows(u.buffer, all_samples(front), last.1);
        if u.limit() > 0 {
            lemma_pieces(recorded, u.limit());
            lemma_suffix_of_suffix(
                flat(full_pieces(recorded, u.limit())),
                last_piece(recorded, u.limit()),
                all_samples(chunks),
            );
        }
        lemma_suffix_of_suffix(recorded, Seq::empty(), all_samples(chunks));
    } else {
        lemma_suffix_grows(Seq::empty(), all_samples(chunks), Seq::empty());
        assert(t.buffer =~= Seq::<T>::empty());
    }
    let all = all_samples(chunks) + chunk;
    let recorded = t.buffer + chunk;
    lemma_suffix_grows(t.buffer, all_samples(chunks), chunk);
    let from = all.len() - recorded.len();
    assert forall|i: int| 0 <= i < t.segments(loud, chunk).len() implies is_stretch_of(
        #[trigger] t.segments(loud, chunk)[i],
        all,
    ) by {
        let part = t.segments(loud, chunk)[i];
        if loud {
            lemma_piece_is_stretch(recorded, t.limit(), i);
            let k = choose|k: int|
                0 <= k <= recorded.len() - part.len() && #[trigger] recorded.subrange(
                    k,
                    k + part.len(),
                ) == part;
            assert(all.subrange(from + k, from + k + part.len()) =~= part);
        } else {
            assert(all.subrange(from, from + part.len()) =~= part);
        }
    }
}

/// An end of a row is an end still when the same is added to both.
proof fn lemma_suffix_grows<T>(end: Seq<T>, all: Seq<T>, more: Seq<T>)
    requires
        end.len() == 0 || end.is_suffix_of(all),
    ensures
        (end + more).is_suffix_of(all + more),
        Seq::<T>::empty().is_suffix_of(all),
{
    let a = all + more;
    let e = end + more;
    assert(a.subrange(a.len() - e.len(), a.len() as int) =~= e);
    assert(all.subrange(all.len() as int, all.len() as int) =~= Seq::<T>::empty());
}

/// The end of an end of a row is an end of the row.
proof fn lemma_suffix_of_suffix<T>(a: Seq<T>, b: Seq<T>, all: Seq<T>)
    requires
        (a + b).is_suffix_of(all),
    ensures
        b.is_suffix_of(all),
{
    let e = a + b;
    assert(all.subrange(all.len() - b.len(), all.len() as int) =~= b) by {
        assert forall|i: int| 0 <= i < b.len() implies all[all.len() - b.len() + i] == b[i] by {
            assert(e[a.len() + i] == b[i]);
            assert(all.subrange(all.len() - e.len(), all.len() as int)[a.len() + i] == e[a.len()
                + i]);
        }
    }
}

/// A piece of a recording stands in it without gaps.
proof fn lemma_piece_is_stretch<T>(s: Seq<T>, max: nat, i: int)
    requires
        0 <= i < full_pieces(s, max).len(),
    ensures
        is_stretch_of(full_pieces(s, max)[i], s),
    decreases s.len(),
{
    let part = full_pieces(s, max)[i];
    if i == 0 {
        assert(s.subrange(0, max as int) =~= part);
        assert(s.subrange(0int, 0int + part.len()) == part);
    } else {
        let rest = s.skip(max as int);
        assert(part == full_pieces(rest, max)[i - 1]);
        lemma_piece_is_stretch(rest, max, i - 1);
        let k = choose|k: int|
            0 <= k <= rest.len() - part.len() && #[trigger] rest.subrange(k, k + part.len())
                == part;
        assert(s.subrange(max + k, max + k + part.len()) =~= part);
    }
}

/// Loud chunks in a row are recorded whole: the segments that get full and what is recorded then
/// are what was recorded before and the chunks.
pub proof fn law_speech_is_recorded_whole<T>(s: VadView<T>, chunks: Seq<(bool, Seq<T>)>)
    requires
        s.limit() > 0,
        forall|i: int| 0 <= i < chunks.len() ==> (#[trigger] chunks[i]).0,
    ensures
        heard(s, chunks).config == s.config,
        flat(sent(s, chunks)) + heard(s, chunks).buffer == s.buffer + all_samples(chunks),
    decreases chunks.len(),
{
    if chunks.len() == 0 {
        assert(flat(sent(s, chunks)) + s.buffer =~= s.buffer + all_samples(chunks));
    } else {
        let front = chunks.drop_last();
        let last = chunks.last();
        assert(chunks[chunks.len() - 1].0);
        assert(forall|i: int| 0 <= i < front.len() ==> front[i] == chunks[i]);
        law_speech_is_recorded_whole(s, front);
        let t = heard(s, front);
        law_loud_chunks_are_kept_whole(t, last.1);
        let new = t.segments(true, last.1);
        lemma_flat_add(sent(s, front), new);
        assert(flat(sent(s, front)) + flat(new) + heard(s, chunks).buffer =~= flat(sent(s, front))
            + (flat(new) + heard(s, chunks).buffer));
        assert(flat(sent(s, front)) + (t.buffer + last.1) =~= (flat(sent(s, front)) + t.buffer)
            + last.1);
        assert(s.buffer + all_samples(front) + last.1 =~= s.buffer + all_samples(chunks));
    }
}

/// Loud chunks in a row that fit in a segment are one recording, and nothing is sent.
proof fn lemma_speech_that_fits<T>(s: VadView<T>, chunks: Seq<(bool, Seq<T>)>)
    requires
        s.limit() > 0,
        chunks.len() > 0,
        forall|i: int| 0 <= i < chunks.len() ==> (#[trigger] chunks[i]).0,
        s.buffer.len() + all_samples(chunks).len() <= s.limit(),
    ensures
        heard(s, chunks).speaking,
        heard(s, chunks).config == s.config,
        heard(s, chunks).silence == 0,
        heard(s, chunks).buffer == s.buffer + all_samples(chunks),
        heard(s, chunks).speech == s.speech + all_samples(chunks).len(),
        sent(s, chunks).len() == 0,
    decreases chunks.len(),
{
    let front = chunks.drop_last();
    let last = chunks.last();
    assert(chunks[chunks.len() - 1].0);
    if front.len() == 0 {
        assert(front =~= Seq::<(bool, Seq<T>)>::empty());
        assert(heard(s, front) == s);
        assert(all_samples(front) =~= Seq::<T>::empty());
        assert(sent(s, front) =~= Seq::<Seq<T>>::empty());
        assert(all_samples(chunks) =~= last.1);
    } else {
        assert(forall|i: int| 0 <= i < front.len() ==> front[i] == chunks[i]);
        lemma_speech_that_fits(s, front);
    }
    assert(s.buffer + all_samples(chunks) =~= (s.buffer + all_samples(front)) + last.1);
}

/// An utterance between silences comes out as one segment, from its first sample to the last
/// one of the silence that ended it, provided it was long enough and is within the limit.
pub proof fn law_an_utterance_is_one_segment<T>(
    s: VadView<T>,
    speech: Seq<(bool, Seq<T>)>,
    silence: Seq<T>,
)
    requires
        s.well_formed(),
        !s.speaking,
        speech.len() > 0,
        forall|i: int| 0 <= i < speech.len() ==> (#[trigger] speech[i]).0,
        all_samples(speech).len() >= s.config.min_speech_samples,
        silence.len() >= s.config.silence_duration_samples,
        s.limit() > 0,
        all_samples(speech).len() + silence.len() <= s.limit(),
    ensures
        sent(s, speech.push((false, silence))) == seq![all_samples(speech) + silence],
        !heard(s, speech.push((false, silence))).speaking,
        heard(s, speech.push((false, silence))).buffer.len() == 0,
{
    let chunks = speech.push((false, silence));
    assert(chunks.drop_last() =~= speech);
    lemma_speech_that_fits(s, speech);
    let t = heard(s, speech);
    assert(t.buffer =~= all_samples(speech));
    assert(sent(s, speech) =~= Seq::<Seq<T>>::empty());
    assert(t.segments(false, silence) =~= seq![all_samples(speech) + silence]);
    assert(sent(s, chunks) =~= seq![all_samples(speech) + silence]);
}

/// Loud chunks in a row are speech from the first, and all of it is counted or part of it has
/// been cut off.
proof fn lemma_speech_is_counted<T>(s: VadView<T>, chunks: Seq<(bool, Seq<T>)>)
    requires
        s.well_formed(),
        !s.speaking,
        s.limit() > 0,
        chunks.len() > 0,
        forall|i: int| 0 <= i < chunks.len() ==> (#[trigger] chunks[i]).0,
    ensures
        heard(s, chunks).speaking,
        heard(s, chunks).silence == 0,
        heard(s, chunks).config == s.config,
        heard(s, chunks).buffer.len() <= s.limit(),
        heard(s, chunks).continued || heard(s, chunks).speech == all_samples(chunks).len(),
    decreases chunks.len(),
{
    let front = chunks.drop_last();
    let last = chunks.last();
    assert(chunks[chunks.len() - 1].0);
    if front.len() == 0 {
        assert(heard(s, front) == s);
        assert(all_samples(front) =~= Seq::<T>::empty());
    } else {
        assert(forall|i: int| 0 <= i < front.len() ==> front[i] == chunks[i]);
        lemma_speech_is_counted(s, front);
    }
    lemma_pieces(heard(s, front).buffer + last.1, s.limit());
}

/// An utterance between silences is sent whole, however long it is, provided that it is long
/// enough to be one: the segments are, one behind the other, its samples, and then as much of the
/// silence that ended it as there is room for.
pub proof fn law_every_utterance_is_sent_whole<T>(
    s: VadView<T>,
    speech: Seq<(bool, Seq<T>)>,
    silence: Seq<T>,
)
    requires
        s.well_formed(),
        !s.speaking,
        s.limit() > 0,
        speech.len() > 0,
        forall|i: int| 0 <= i < speech.len() ==> (#[trigger] speech[i]).0,
        all_samples(speech).len() >= s.config.min_speech_samples,
        silence.len() >= s.config.silence_duration_samples,
    ensures
        all_samples(speech).is_prefix_of(flat(sent(s, speech.push((false, silence))))),
        flat(sent(s, speech.push((false, silence)))).is_prefix_of(all_samples(speech) + silence),
        !heard(s, speech.push((false, silence))).speaking,
{
    let chunks = speech.push((false, silence));
    assert(chunks.drop_last() =~= speech);
    law_speech_is_recorded_whole(s, speech);
    lemma_speech_is_counted(s, speech);
    let t = heard(s, speech);
    let all = all_samples(speech);
    assert(s.buffer + all =~= all);
    let last = cut(t.buffer + silence, t.limit());
    let new: Seq<Seq<T>> = seq![last];
    assert(t.segments(false, silence) =~= new);
    lemma_flat_add(sent(s, speech), new);
    assert(new.drop_last() =~= Seq::<Seq<T>>::empty());
    assert(flat(Seq::<Seq<T>>::empty()) =~= Seq::<T>::empty());
    assert(flat(new) =~= last);
    let f = flat(sent(s, chunks));
    let done = flat(sent(s, speech));
    assert(f == done + last);
    assert(f.subrange(0, all.len() as int) =~= done + t.buffer);
    assert((all + silence).subrange(0, f.len() as int) =~= f) by {
        assert(all + silence =~= done + (t.buffer + silence));
    }
}

/// What is announced of a chunk: first its level, then the start of speech where a loud chunk comes
/// while nobody speaks, and then each segment, with the rate of the audio.
pub proof fn law_what_is_announced<T>(s: VadView<T>, level: T, loud: bool, chunk: Seq<T>)
    ensures
        ({
            let events = s.events(level, loud, chunk);
            let segments = s.segments(loud, chunk);
            let first = if loud && !s.speaking {
                2int
            } else {
                1int
            };
            &&& events.len() == first + segments.len()
            &&& events[0] == EventView::AudioLevelUpdate(level)
            &&& loud && !s.speaking ==> events[1] == EventView::<T>::SpeechStarted
            &&& forall|i: int|
                first <= i < events.len() ==> #[trigger] events[i]
                    == (EventView::SpeechSegmentReady {
                    samples: segments[i - first],
                    sample_rate: s.sample_rate,
                })
        }),
{
}

/// What is counted: a loud chunk that fits adds to the speech and ends the silence, a silent chunk
/// that does not end the recording adds to the silence and leaves the speech, and the settings
/// never change.
pub proof fn law_what_is_counted<T>(s: VadView<T>, loud: bool, chunk: Seq<T>)
    requires
        s.well_formed(),
    ensures
        s.after(loud, chunk).config == s.config,
        s.after(loud, chunk).sample_rate == s.sample_rate,
        loud ==> s.after(loud, chunk).speaking && s.after(loud, chunk).silence == 0,
        loud && s.buffer.len() + chunk.len() <= s.limit() ==> s.after(loud, chunk).speech
            == s.speech + chunk.len() && s.after(loud, chunk).continued == s.continued
            && s.segments(loud, chunk).len() == 0,
        !loud && s.after(loud, chunk).speaking ==> {
            &&& s.speaking
            &&& s.after(loud, chunk).speech == s.speech
            &&& s.after(loud, chunk).silence == s.silence + chunk.len()
            &&& s.after(loud, chunk).continued == s.continued
            &&& s.segments(loud, chunk).len() == 0
        },
        !loud && s.speaking ==> s.after(loud, chunk).speaking == (s.silence + chunk.len()
            < s.config.silence_duration_samples && s.buffer.len() + chunk.len()
            < s.config.max_samples),
{
}

/// The number of samples in the loud chunks of a row.
pub open spec fn loud_samples<T>(chunks: Seq<(bool, Seq<T>)>) -> nat
    decreases chunks.len(),
{
    if chunks.len() == 0 {
        0
    } else {
        loud_samples(chunks.drop_last()) + if chunks.last().0 {
            chunks.last().1.len()
        } else {
            0
        }
    }
}

/// The number of samples in the silent chunks at the end of a row.
pub open spec fn closing_silence<T>(chunks: Seq<(bool, Seq<T>)>) -> nat
    decreases chunks.len(),
{
    if chunks.len() == 0 || chunks.last().0 {
        0
    } else {
        closing_silence(chunks.drop_last()) + chunks.last().1.len()
    }
}

proof fn lemma_a_recording_goes_on<T>(s: VadView<T>, chunks: Seq<(bool, Seq<T>)>)
    requires
        s.well_formed(),
        !s.speaking,
        s.limit() > 0,
        chunks.len() > 0,
        chunks[0].0,
        all_samples(chunks).len() <= s.limit(),
        forall|k: int|
            1 <= k <= chunks.len() && !chunks[k - 1].0 ==> closing_silence(#[trigger] chunks.take(k))
                < s.config.silence_duration_samples && all_samples(chunks.take(k)).len()
                < s.limit(),
    ensures
        heard(s, chunks).config == s.config,
        heard(s, chunks).speaking,
        heard(s, chunks).buffer == all_samples(chunks),
        heard(s, chunks).silence == closing_silence(chunks),
        heard(s, chunks).speech == loud_samples(chunks),
        !heard(s, chunks).continued,
        sent(s, chunks).len() == 0,
    decreases chunks.len(),
{
    let front = chunks.drop_last();
    let last = chunks.last();
    let n = chunks.len() as int;
    assert(chunks.take(n) =~= chunks);
    assert(last == chunks[n - 1]);
    if front.len() == 0 {
        assert(front =~= Seq::<(bool, Seq<T>)>::empty());
        assert(heard(s, front) == s);
        assert(all_samples(front) =~= Seq::<T>::empty());
        assert(sent(s, front) =~= Seq::<Seq<T>>::empty());
        assert(loud_samples(front) == 0);
        assert(s.buffer + last.1 =~= all_samples(chunks));
    } else {
        assert forall|k: int| 1 <= k <= front.len() && !front[k - 1].0 implies closing_silence(
            #[trigger] front.take(k),
        ) < s.config.silence_duration_samples && all_samples(front.take(k)).len() < s.limit() by {
            assert(front.take(k) =~= chunks.take(k));
            assert(front[k - 1] == chunks[k - 1]);
        }
        lemma_a_recording_goes_on(s, front);
    }
}

proof fn lemma_samples_of_a_part<T>(chunks: Seq<(bool, Seq<T>)>, k: int)
    requires
        0 <= k <= chunks.len(),
    ensures
        all_samples(chunks.take(k)).len() <= all_samples(chunks).len(),
    decreases chunks.len(),
{
    if k == chunks.len() {
        assert(chunks.take(k) =~= chunks);
    } else {
        assert(chunks.drop_last().take(k) =~= chunks.take(k));
        lemma_samples_of_a_part(chunks.drop_last(), k);
    }
}

/// An utterance comes out as one segment, from its first loud sample to the last one of the silence
/// that ends it: it goes on through every pause that is too short to end it, however the audio is
/// cut into chunks, and all its loud samples count as speech.  Where they are too few, it is a
/// noise burst, and nothing is sent.
pub proof fn law_an_utterance_with_pauses_is_one_segment<T>(
    s: VadView<T>,
    chunks: Seq<(bool, Seq<T>)>,
)
    requires
        s.well_formed(),
        !s.speaking,
        s.limit() > 0,
        chunks.len() > 1,
        chunks[0].0,
        !chunks.last().0,
        closing_silence(chunks) >= s.config.silence_duration_samples,
        forall|k: int|
            1 <= k < chunks.len() && !chunks[k - 1].0 ==> closing_silence(#[trigger] chunks.take(k))
                < s.config.silence_duration_samples,
        all_samples(chunks).len() <= s.limit(),
    ensures
        loud_samples(chunks) >= s.config.min_speech_samples ==> sent(s, chunks) == seq![
            all_samples(chunks),
        ],
        loud_samples(chunks) < s.config.min_speech_samples ==> sent(s, chunks).len() == 0,
        !heard(s, chunks).speaking,
        heard(s, chunks).buffer.len() == 0,
{
    let front = chunks.drop_last();
    let last = chunks.last();
    let n = front.len() as int;
    assert(chunks.take(n) =~= front);
    assert(front[n - 1] == chunks[n - 1]);
    assert forall|k: int| 1 <= k <= n && !front[k - 1].0 implies closing_silence(
        #[trigger] front.take(k),
    ) < s.config.silence_duration_samples && all_samples(front.take(k)).len() < s.limit() by {
        assert(front.take(k) =~= chunks.take(k));
        assert(front[k - 1] == chunks[k - 1]);
        lemma_samples_of_a_part(front, k);
        assert(last.1.len() > 0);
    }
    lemma_a_recording_goes_on(s, front);
    let t = heard(s, front);
    assert(t.buffer + last.1 =~= all_samples(chunks));
    assert(sent(s, front) =~= Seq::<Seq<T>>::empty());
    if loud_samples(chunks) >= s.config.min_speech_samples {
        assert(t.segments(false, last.1) =~= seq![all_samples(chunks)]);
        assert(sent(s, chunks) =~= seq![all_samples(chunks)]);
    }
}

/// Whether a recorded utterance is being recorded still, or has been sent, after a row of silent
/// chunks.
spec fn waits_or_is_sent<T>(
    t: VadView<T>,
    done: Seq<T>,
    speech: Seq<T>,
    pause: Seq<T>,
    limit: nat,
    duration: nat,
) -> bool {
    if t.speaking {
        &&& t.is_valid()
        &&& t.limit() == limit
        &&& t.config.silence_duration_samples == duration
        &&& t.buffer.len() <= limit
        &&& t.silence == pause.len()
        &&& done + t.buffer == speech + pause
    } else {
        &&& speech.is_prefix_of(done)
        &&& done.is_prefix_of(speech + pause)
    }
}

proof fn lemma_a_pause<T>(
    s: VadView<T>,
    speech: Seq<(bool, Seq<T>)>,
    pause: Seq<(bool, Seq<T>)>,
)
    requires
        s.well_formed(),
        !s.speaking,
        s.limit() > 0,
        speech.len() > 0,
        forall|i: int| 0 <= i < speech.len() ==> (#[trigger] speech[i]).0,
        forall|i: int| 0 <= i < pause.len() ==> !(#[trigger] pause[i]).0,
        all_samples(speech).len() >= s.config.min_speech_samples,
    ensures
        waits_or_is_sent(
            heard(s, speech + pause),
            flat(sent(s, speech + pause)),
            all_samples(speech),
            all_samples(pause),
            s.limit(),
            s.config.silence_duration_samples as nat,
        ),
        pause.len() > 0 && heard(s, speech + pause).speaking ==> all_samples(pause).len()
            < s.config.silence_duration_samples,
    decreases pause.len(),
{
    let spoken = all_samples(speech);
    let limit = s.limit();
    if pause.len() == 0 {
        assert(speech + pause =~= speech);
        law_speech_is_recorded_whole(s, speech);
        lemma_speech_is_counted(s, speech);
        assert(s.buffer + spoken =~= spoken + all_samples(pause));
    } else {
        let front = pause.drop_last();
        let last = pause.last();
        assert(!pause[pause.len() - 1].0);
        assert(forall|i: int| 0 <= i < front.len() ==> front[i] == pause[i]);
        lemma_a_pause(s, speech, front);
        let chunks = speech + pause;
        assert(chunks.drop_last() =~= speech + front);
        assert(chunks.last() == last);
        let t = heard(s, speech + front);
        let done = flat(sent(s, speech + front));
        let new = t.segments(false, last.1);
        lemma_flat_add(sent(s, speech + front), new);
        let quiet = all_samples(front);
        assert(spoken + all_samples(pause) =~= (spoken + quiet) + last.1);
        if !t.speaking {
            assert(flat(new) =~= Seq::<T>::empty());
            assert(done + flat(new) =~= done);
            lemma_prefix_of_more(done, spoken + quiet, last.1);
        } else if t.pause_ends_speech(last.1) || t.too_long(last.1) {
            let part = cut(t.buffer + last.1, limit);
            assert(new =~= seq![part]);
            assert(new.drop_last() =~= Seq::<Seq<T>>::empty());
            assert(flat(Seq::<Seq<T>>::empty()) =~= Seq::<T>::empty());
            assert(flat(new) =~= part);
            let all = done + part;
            let whole = done + (t.buffer + last.1);
            assert(whole =~= (spoken + quiet) + last.1);
            assert(whole.subrange(0, all.len() as int) =~= all);
            assert(all.subrange(0, spoken.len() as int) =~= spoken) by {
                assert forall|i: int| 0 <= i < spoken.len() implies all[i] == spoken[i] by {
                    assert((done + t.buffer)[i] == (spoken + quiet)[i]);
                }
            }
        } else {
            assert(flat(new) =~= Seq::<T>::empty());
            assert(done + flat(new) =~= done);
            assert(done + (t.buffer + last.1) =~= (done + t.buffer) + last.1);
        }
    }
}

/// The start of a row is the start of a longer one.
proof fn lemma_prefix_of_more<T>(a: Seq<T>, b: Seq<T>, more: Seq<T>)
    requires
        a.is_prefix_of(b),
    ensures
        a.is_prefix_of(b + more),
{
    assert((b + more).subrange(0, a.len() as int) =~= b.subrange(0, a.len() as int));
}

/// An utterance is sent whole, however long it is and however the silence behind it is cut into
/// chunks: the segments are, one behind the other, its samples, and then silence that stood behind
/// them.
pub proof fn law_every_utterance_is_sent_before_the_silence_is_over<T>(
    s: VadView<T>,
    speech: Seq<(bool, Seq<T>)>,
    pause: Seq<(bool, Seq<T>)>,
)
    requires
        s.well_formed(),
        !s.speaking,
        s.limit() > 0,
        speech.len() > 0,
        forall|i: int| 0 <= i < speech.len() ==> (#[trigger] speech[i]).0,
        pause.len() > 0,
        forall|i: int| 0 <= i < pause.len() ==> !(#[trigger] pause[i]).0,
        all_samples(speech).len() >= s.config.min_speech_samples,
        all_samples(pause).len() >= s.config.silence_duration_samples,
    ensures
        all_samples(speech).is_prefix_of(flat(sent(s, speech + pause))),
        flat(sent(s, speech + pause)).is_prefix_of(all_samples(speech) + all_samples(pause)),
        !heard(s, speech + pause).speaking,
{
    lemma_a_pause(s, speech, pause);
}

/// What a silent chunk sends while someone speaks.  Where the silence has lasted long enough, it is
/// the recording with the chunk, as far as that is within the limit, provided that enough of it is
/// speech or that it continues speech of which a part was sent.  Where the recording is full before
/// that, it is sent in any case; and until then nothing is.
pub proof fn law_what_a_silent_chunk_sends<T>(s: VadView<T>, chunk: Seq<T>)
    requires
        s.well_formed(),
        s.speaking,
        s.config.max_samples > 0,
    ensures
        ({
            let recorded = s.buffer + chunk;
            let max = s.config.max_samples as int;
            let part = if recorded.len() <= max {
                recorded
            } else {
                recorded.take(max)
            };
            let over = s.silence + chunk.len() >= s.config.silence_duration_samples;
            let enough = s.continued || s.speech >= s.config.min_speech_samples;
            &&& over && enough ==> s.segments(false, chunk) == seq![part]
            &&& over && !enough ==> s.segments(false, chunk).len() == 0
            &&& !over && recorded.len() >= max ==> s.segments(false, chunk) == seq![part]
            &&& !over && recorded.len() < max ==> s.segments(false, chunk).len() == 0 && s.after(
                false,
                chunk,
            ).buffer == recorded
            &&& over || recorded.len() >= max ==> s.after(false, chunk) == VadView::<T>::idle(
                s.config,
                s.sample_rate,
            )
        }),
{
}

/// A loud chunk that does not fit marks what is left as the continuation of speech, and all of that
/// counts as speech.
pub proof fn law_speech_that_does_not_fit_continues<T>(s: VadView<T>, chunk: Seq<T>)
    requires
        s.well_formed(),
        s.buffer.len() + chunk.len() > s.config.max_samples,
    ensures
        s.after(true, chunk).continued,
        s.after(true, chunk).speech == s.after(true, chunk).buffer.len(),
{
}

/// A detector that has heard nothing: nobody speaks, and nothing is recorded or counted.
pub proof fn law_a_new_detector<T>(config: VadConfig, sample_rate: u32)
    ensures
        ({
            let s = VadView::<T>::idle(config, sample_rate);
            &&& s.config == config && s.sample_rate == sample_rate
            &&& !s.speaking && !s.continued
            &&& s.buffer.len() == 0 && s.silence == 0 && s.speech == 0
        }),
{
}

} // verus!
