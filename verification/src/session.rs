//! How the application reacts to the events of its processing pipeline.
use crate::clock::{is_time_of_day, time_of_day};
use crate::config::{Config, ConfigView, OutputSource};
use crate::document::DocumentView;
use crate::events::{ActionView, AppEvent, EventView, LlmAction};
use crate::intent::{parse_local_intent, spoken_intent};
use crate::text::{concat, same, trim, trimmed, CharClass};
use crate::ui::{App, AppView, EntryView};
use std::time::Instant;
use vstd::prelude::*;

verus! {

/// What is to be done outside when an event has been handled.
#[derive(Debug)]
pub enum Reaction<F> {
    /// Nothing.
    Nothing,
    /// Have a speech segment transcribed.
    Transcribe { samples: Vec<F>, sample_rate: u32 },
    /// Have an utterance classified by the language model, with the state of the document.
    Classify { text: String, context: String },
    /// Write the text of the document to the output file.
    WriteOutput { path: String, content: String },
}

/// A reaction with its texts and lists taken by their contents.
pub enum ReactionView<F> {
    Nothing,
    Transcribe { samples: Seq<F>, sample_rate: u32 },
    Classify { text: Seq<char>, context: Seq<char> },
    WriteOutput { path: Seq<char>, content: Seq<char> },
}

impl<F> View for Reaction<F> {
    type V = ReactionView<F>;

    open spec fn view(&self) -> ReactionView<F> {
        match *self {
            Reaction::Nothing => ReactionView::Nothing,
            Reaction::Transcribe { samples, sample_rate } => ReactionView::Transcribe {
                samples: samples@,
                sample_rate,
            },
            Reaction::Classify { text, context } => ReactionView::Classify {
                text: text@,
                context: context@,
            },
            Reaction::WriteOutput { path, content } => ReactionView::WriteOutput {
                path: path@,
                content: content@,
            },
        }
    }
}

/// Keeping the output file current, where one is configured.
pub open spec fn output_written<F>(
    document: DocumentView,
    output_file: Option<Seq<char>>,
) -> ReactionView<F> {
    match output_file {
        Some(path) => ReactionView::WriteOutput { path, content: document.rendered() },
        None => ReactionView::Nothing,
    }
}

/// The state after a transcript, and what is to be done with it.
///
/// A blank transcript is dropped.  Otherwise it is logged; and it is typed as it is where the
/// output is that of the recogniser, classified by rules where there is no language model, and
/// else sent to the language model.
pub open spec fn after_transcript<F>(
    app: AppView<F>,
    text: Seq<char>,
    timestamp: Seq<char>,
    config: ConfigView,
) -> (AppView<F>, ReactionView<F>) {
    if trimmed(text).len() == 0 {
        (app.ready(), ReactionView::Nothing)
    } else {
        let logged = app.logged(
            EntryView { timestamp, raw_text: text, intent: ""@, detail: ""@ },
        );
        if app.output_source == OutputSource::Asr {
            let typed = logged.apply(ActionView::Dictate { text }).ready();
            (typed, output_written(typed.document, config.output_file))
        } else if !config.has_llm_api() {
            let applied = logged.apply(spoken_intent(text)).ready();
            (applied, output_written(applied.document, config.output_file))
        } else {
            (
                AppView { status: "🧠 Classifying intent..."@, ..logged },
                ReactionView::Classify { text, context: app.document.summary() },
            )
        }
    }
}

/// The state after an event, and what is to be done about it.  A transcript is logged with the
/// time `timestamp`, and a message that is flashed is set at the reading `now` of the clock.
pub open spec fn after_event<F>(
    app: AppView<F>,
    event: EventView<F>,
    timestamp: Seq<char>,
    now: Instant,
    config: ConfigView,
) -> (AppView<F>, ReactionView<F>) {
    match event {
        EventView::AudioLevelUpdate(level) => (
            AppView { audio_level: level, ..app },
            ReactionView::Nothing,
        ),
        EventView::SpeechStarted => (
            AppView { status: "🗣️ Listening — Speaking detected..."@, ..app },
            ReactionView::Nothing,
        ),
        EventView::SpeechSegmentReady { samples, sample_rate } => (
            AppView { status: "⏳ Transcribing..."@, is_processing: true, ..app },
            ReactionView::Transcribe { samples, sample_rate },
        ),
        EventView::Transcribing => (
            AppView { status: "⏳ Transcribing..."@, ..app },
            ReactionView::Nothing,
        ),
        EventView::TranscriptReady { text } => after_transcript(app, text, timestamp, config),
        EventView::ClassifyingIntent => (
            AppView { status: "🧠 Classifying intent..."@, ..app },
            ReactionView::Nothing,
        ),
        EventView::LlmResponse(action) => {
            let applied = app.apply(action).ready();
            (
                applied,
                if applied.document.rendered() != app.document.rendered() {
                    output_written(applied.document, config.output_file)
                } else {
                    ReactionView::Nothing
                },
            )
        },
        EventView::StatusMessage(message) => (
            AppView { status: message, ..app },
            ReactionView::Nothing,
        ),
        EventView::Error(message) => (
            app.flashing("❌ "@ + message, now).ready(),
            ReactionView::Nothing,
        ),
    }
}

/// What keeping the output file current takes.
pub fn output_reaction<F>(app: &App<F>, config: &Config) -> (r: Reaction<F>)
    ensures
        r@ == output_written::<F>(app@.document, config@.output_file),
{
    match &config.output_file {
        Some(path) => Reaction::WriteOutput {
            path: path.clone(),
            content: app.document.render(),
        },
        None => Reaction::Nothing,
    }
}

/// Handles a transcript that came in at a time.
pub fn handle_transcript<F>(
    app: &mut App<F>,
    text: String,
    timestamp: String,
    config: &Config,
) -> (r: Reaction<F>)
    ensures
        (final(app)@, r@) == after_transcript(old(app)@, text@, timestamp@, config@),
{
    if trim(text.as_str(), CharClass::Whitespace).is_empty() {
        app.make_ready();
        return Reaction::Nothing;
    }
    app.log_entry(timestamp, text.as_str(), "", "");
    match app.output_source {
        OutputSource::Asr => {
            app.apply_action(LlmAction::Dictate { text });
            app.make_ready();
            return output_reaction(app, config);
        },
        OutputSource::Llm => {},
    }
    if !config.has_llm_api() {
        // No language model: use the local rules
        let action: LlmAction = parse_local_intent(text.as_str());
        app.apply_action(action);
        app.make_ready();
        return output_reaction(app, config);
    }
    app.status = "🧠 Classifying intent...".to_string();
    let context: String = app.document.context_summary();
    Reaction::Classify { text, context }
}

/// Handles an event that came in at a time.
pub fn handle_event_at<F>(
    app: &mut App<F>,
    event: AppEvent<F>,
    timestamp: String,
    config: &Config,
) -> (r: Reaction<F>)
    ensures
        (final(app)@, r@) == after_event(
            old(app)@,
            event@,
            timestamp@,
            final(app)@.flash_time(),
            config@,
        ),
{
    match event {
        AppEvent::AudioLevelUpdate(level) => {
            app.audio_level = level;
            Reaction::Nothing
        },
        AppEvent::SpeechStarted => {
            app.status = "🗣️ Listening — Speaking detected...".to_string();
            Reaction::Nothing
        },
        AppEvent::SpeechSegmentReady { samples, sample_rate } => {
            app.status = "⏳ Transcribing...".to_string();
            app.is_processing = true;
            Reaction::Transcribe { samples, sample_rate }
        },
        AppEvent::Transcribing => {
            app.status = "⏳ Transcribing...".to_string();
            Reaction::Nothing
        },
        AppEvent::TranscriptReady { text } => handle_transcript(app, text, timestamp, config),
        AppEvent::ClassifyingIntent => {
            app.status = "🧠 Classifying intent...".to_string();
            Reaction::Nothing
        },
        AppEvent::LlmResponse(action) => {
            let previous: String = app.document.render();
            app.apply_action(action);
            app.make_ready();
            let now: String = app.document.render();
            if same(now.as_str(), previous.as_str()) {
                Reaction::Nothing
            } else {
                output_reaction(app, config)
            }
        },
        AppEvent::StatusMessage(message) => {
            app.status = message;
            Reaction::Nothing
        },
        AppEvent::Error(message) => {
            app.set_flash(concat("❌ ", message.as_str()));
            app.make_ready();
            Reaction::Nothing
        },
    }
}

/// Handle an application event from the processing pipeline.
pub fn handle_app_event<F>(app: &mut App<F>, event: AppEvent<F>, config: &Config) -> (r: Reaction<
    F,
>)
    ensures
        exists|timestamp: Seq<char>|
            (event@ is TranscriptReady ==> is_time_of_day(timestamp)) && (final(app)@, r@)
                == #[trigger] after_event(
                old(app)@,
                event@,
                timestamp,
                final(app)@.flash_time(),
                config@,
            ),
{
    let timestamp: String = match &event {
        AppEvent::TranscriptReady { .. } => time_of_day(),
        _ => String::new(),
    };
    let ghost t = timestamp@;
    let r: Reaction<F> = handle_event_at(app, event, timestamp, config);
    assert((app@, r@) == after_event(old(app)@, event@, t, app@.flash_time(), config@));
    r
}

// ---------------------------------------------------------------------------
// Results of work in the background
// ---------------------------------------------------------------------------

/// A result in words, taken by its characters.
pub open spec fn words_view(result: Result<String, String>) -> Result<Seq<char>, Seq<char>> {
    match result {
        Ok(text) => Ok(text@),
        Err(e) => Err(e@),
    }
}

/// The event for a transcription that was begun in an epoch.
pub open spec fn transcribed<F>(
    result: Result<Seq<char>, Seq<char>>,
    started_at: u64,
    epoch: u64,
) -> Option<EventView<F>> {
    if started_at != epoch {
        None
    } else {
        match result {
            Ok(text) => Some(EventView::TranscriptReady { text }),
            Err(e) => Some(EventView::Error("ASR error: "@ + e)),
        }
    }
}

/// The event for a classification that was begun in an epoch; `None` is one that failed.
pub open spec fn classified_at<F>(
    result: Option<ActionView>,
    raw_text: Seq<char>,
    started_at: u64,
    epoch: u64,
) -> Option<EventView<F>> {
    if started_at != epoch {
        None
    } else {
        match result {
            Some(action) => Some(EventView::LlmResponse(action)),
            None => Some(EventView::LlmResponse(ActionView::Dictate { text: raw_text })),
        }
    }
}

/// An optional event, taken by its contents.
pub open spec fn event_view<F>(event: Option<AppEvent<F>>) -> Option<EventView<F>> {
    match event {
        Some(e) => Some(e@),
        None => None,
    }
}

/// The event for a transcription that was begun in an epoch: none where the audio source has
/// been changed since.
pub fn transcription_event<F>(
    result: Result<String, String>,
    started_at: u64,
    epoch: u64,
) -> (r: Option<AppEvent<F>>)
    ensures
        event_view(r) == transcribed::<F>(words_view(result), started_at, epoch),
        r is Some == (started_at == epoch),
        r matches Some(event) ==> event@ == match result {
            Ok(text) => EventView::<F>::TranscriptReady { text: text@ },
            Err(e) => EventView::<F>::Error("ASR error: "@ + e@),
        },
{
    if started_at != epoch {
        return None;
    }
    match result {
        Ok(text) => Some(AppEvent::TranscriptReady { text }),
        Err(e) => Some(AppEvent::Error(concat("ASR error: ", e.as_str()))),
    }
}

/// The event for a classification that was begun in an epoch: none where the audio source has
/// been changed since.  An utterance that could not be classified is dictation.
pub fn classification_event<F>(
    result: Result<LlmAction, String>,
    raw_text: String,
    started_at: u64,
    epoch: u64,
) -> (r: Option<AppEvent<F>>)
    ensures
        event_view(r) == classified_at::<F>(
            match result {
                Ok(action) => Some(action@),
                Err(_) => None,
            },
            raw_text@,
            started_at,
            epoch,
        ),
        r is Some == (started_at == epoch),
        r matches Some(event) ==> event@ == match result {
            Ok(action) => EventView::<F>::LlmResponse(action@),
            Err(_) => EventView::<F>::LlmResponse(ActionView::Dictate { text: raw_text@ }),
        },
{
    if started_at != epoch {
        return None;
    }
    match result {
        Ok(action) => Some(AppEvent::LlmResponse(action)),
        Err(_) => Some(AppEvent::LlmResponse(LlmAction::Dictate { text: raw_text })),
    }
}

/// Reports that the output file could not be written.
pub fn output_failed<F>(app: &mut App<F>, error: &str)
    ensures
        final(app)@ == old(app)@.flashing("❌ Output file error: "@ + error@, final(app)@.flash_time()),
{
    app.set_flash(concat("❌ Output file error: ", error));
}

/// Reports that an audio source could not be opened.
pub fn source_failed<F>(app: &mut App<F>, error: &str)
    ensures
        final(app)@ == old(app)@.flashing("Audio source error: "@ + error@, final(app)@.flash_time()),
{
    app.set_flash(concat("Audio source error: ", error));
}

/// The file that was chosen at the start is being transcribed.
pub fn file_submitted<F>(app: &mut App<F>)
    ensures
        final(app)@ == (AppView { status: "⏳ Transcribing audio file..."@, ..old(app)@ }),
{
    app.status = "⏳ Transcribing audio file...".to_string();
}

/// What stands for the language model on the screen.
pub fn llm_description(config: &Config) -> (r: String)
    ensures
        r@ == if config@.has_llm_api() {
            config@.llm_model
        } else {
            "Direct (Offline)"@
        },
{
    if config.has_llm_api() {
        config.llm_model.clone()
    } else {
        "Direct (Offline)".to_string()
    }
}

// ---------------------------------------------------------------------------
// Laws
// ---------------------------------------------------------------------------

/// Events keep the application state well formed.
pub proof fn law_events_keep_well_formed<F>(
    app: AppView<F>,
    event: EventView<F>,
    timestamp: Seq<char>,
    now: Instant,
    config: ConfigView,
)
    requires
        app.well_formed(),
    ensures
        after_event(app, event, timestamp, now, config).0.well_formed(),
{
    match event {
        EventView::TranscriptReady { text } => {
            let entry = EntryView { timestamp, raw_text: text, intent: ""@, detail: ""@ };
            let typed = ActionView::Dictate { text };
            let classified = spoken_intent(text);
            crate::ui::law_well_formed_is_kept(app, entry, typed);
            crate::ui::law_well_formed_is_kept(app.logged(entry), entry, typed);
            crate::ui::law_well_formed_is_kept(app.logged(entry), entry, classified);
        },
        EventView::LlmResponse(action) => {
            let entry = EntryView {
                timestamp,
                raw_text: Seq::empty(),
                intent: Seq::empty(),
                detail: Seq::empty(),
            };
            crate::ui::law_well_formed_is_kept(app, entry, action);
        },
        _ => {},
    }
}

/// The document changes on a transcript or a classification alone.
pub proof fn law_only_utterances_change_the_document<F>(
    app: AppView<F>,
    event: EventView<F>,
    timestamp: Seq<char>,
    now: Instant,
    config: ConfigView,
)
    requires
        !(event is TranscriptReady),
        !(event is LlmResponse),
    ensures
        after_event(app, event, timestamp, now, config).0.document == app.document,
{
}

/// Silence is not typed: a blank transcript changes neither the document nor the log, and leads
/// to no request.
pub proof fn law_blank_transcripts_are_dropped<F>(
    app: AppView<F>,
    text: Seq<char>,
    timestamp: Seq<char>,
    config: ConfigView,
)
    requires
        trimmed(text).len() == 0,
    ensures
        after_transcript(app, text, timestamp, config) == (app.ready(), ReactionView::<F>::Nothing),
{
}

/// With the recogniser as the output, what was heard is typed as it is, whatever is configured.
pub proof fn law_recogniser_output_is_typed<F>(
    app: AppView<F>,
    text: Seq<char>,
    timestamp: Seq<char>,
    config: ConfigView,
)
    requires
        trimmed(text).len() > 0,
        app.output_source == OutputSource::Asr,
    ensures
        after_transcript(app, text, timestamp, config).0.document == app.document.append_text(text),
        !(after_transcript(app, text, timestamp, config).1 is Classify),
{
}

/// Without a language model nothing is sent anywhere: an utterance is dealt with on the spot.
pub proof fn law_offline_means_offline<F>(
    app: AppView<F>,
    event: EventView<F>,
    timestamp: Seq<char>,
    now: Instant,
    config: ConfigView,
)
    requires
        !config.has_llm_api(),
    ensures
        !(after_event(app, event, timestamp, now, config).1 is Classify),
{
}

/// Every utterance that is transcribed ends the processing, unless it has to be classified
/// first; and so does every classification and every error.
pub proof fn law_processing_ends<F>(
    app: AppView<F>,
    event: EventView<F>,
    timestamp: Seq<char>,
    now: Instant,
    config: ConfigView,
)
    requires
        event is TranscriptReady || event is LlmResponse || event is Error,
    ensures
        ({
            let (after, reaction) = after_event(app, event, timestamp, now, config);
            reaction is Classify || !after.is_processing
        }),
{
}

/// The output file is written only where one is configured, and then with the text that the
/// document has after the event.
pub proof fn law_the_output_file_is_current<F>(
    app: AppView<F>,
    event: EventView<F>,
    timestamp: Seq<char>,
    now: Instant,
    config: ConfigView,
)
    ensures
        ({
            let (after, reaction) = after_event(app, event, timestamp, now, config);
            reaction matches ReactionView::WriteOutput { path, content } ==> config.output_file
                == Some(path) && content == after.document.rendered()
        }),
        ({
            let (after, reaction) = after_event(app, event, timestamp, now, config);
            config.output_file is Some && after.document.rendered() != app.document.rendered()
                ==> reaction is WriteOutput
        }),
{
}

/// An utterance that is more than white space is logged as it was heard, at its time, and what was
/// logged before it stays.
pub proof fn law_utterances_are_logged_as_heard<F>(
    app: AppView<F>,
    text: Seq<char>,
    timestamp: Seq<char>,
    config: ConfigView,
)
    requires
        app.well_formed(),
        trimmed(text).len() > 0,
    ensures
        ({
            let log = after_transcript(app, text, timestamp, config).0.transcript_log;
            let n = log.len() - 1;
            &&& n >= 0
            &&& log[n].raw_text == text
            &&& log[n].timestamp == timestamp
            &&& app.transcript_log.len() < 100 ==> n == app.transcript_log.len() && (forall|i: int|
                0 <= i < n ==> #[trigger] log[i] == app.transcript_log[i])
            &&& app.transcript_log.len() == 100 ==> n == 99 && (forall|i: int|
                0 <= i < n ==> #[trigger] log[i] == app.transcript_log[i + 1])
        }),
{
    let entry = EntryView { timestamp, raw_text: text, intent: ""@, detail: ""@ };
    crate::ui::law_the_log_keeps_the_latest_entries(app, entry);
    let logged = app.logged(entry);
    crate::ui::law_what_the_log_says(logged, ActionView::Dictate { text });
    crate::ui::law_what_the_log_says(logged, spoken_intent(text));
}

/// What becomes of an utterance that is more than white space: with the recogniser as the output it
/// is typed as it was heard; without a language model it is done what it asks for by the rules; and
/// else it is sent to the language model with a summary of the document, which stays as it is.
pub proof fn law_what_becomes_of_an_utterance<F>(
    app: AppView<F>,
    text: Seq<char>,
    timestamp: Seq<char>,
    config: ConfigView,
)
    requires
        trimmed(text).len() > 0,
    ensures
        ({
            let (after, reaction) = after_transcript(app, text, timestamp, config);
            &&& app.output_source == OutputSource::Asr ==> after.document
                == app.document.append_text(text)
            &&& app.output_source == OutputSource::Llm && !config.has_llm_api() ==> after.document
                == app.document.apply(spoken_intent(text))
            &&& app.output_source == OutputSource::Asr || !config.has_llm_api() ==> {
                &&& !after.is_processing
                &&& config.output_file is None ==> reaction == ReactionView::<F>::Nothing
                &&& config.output_file matches Some(path) ==> reaction
                    == (ReactionView::<F>::WriteOutput { path, content: after.document.rendered() })
            }
            &&& app.output_source == OutputSource::Llm && config.has_llm_api() ==> {
                &&& after.document == app.document
                &&& after.is_processing == app.is_processing
                &&& reaction == (ReactionView::<F>::Classify {
                    text,
                    context: app.document.summary(),
                })
            }
        }),
{
    crate::history::law_each_action_does_its_edit(app.document, text, None);
}

/// What follows from the events of the pipeline: a segment is handed on whole to be transcribed, a
/// classification is carried out and written to the output file where it changed the text, an error
/// is shown, and the others change what they report and nothing else.
pub proof fn law_what_follows_from_an_event<F>(
    app: AppView<F>,
    level: F,
    samples: Seq<F>,
    sample_rate: u32,
    action: ActionView,
    message: Seq<char>,
    timestamp: Seq<char>,
    now: Instant,
    config: ConfigView,
)
    ensures
        after_event(app, EventView::AudioLevelUpdate(level), timestamp, now, config) == (
            AppView { audio_level: level, ..app },
            ReactionView::<F>::Nothing,
        ),
        after_event(app, EventView::SpeechStarted, timestamp, now, config) == (
            AppView { status: "🗣️ Listening — Speaking detected..."@, ..app },
            ReactionView::<F>::Nothing,
        ),
        after_event(
            app,
            EventView::SpeechSegmentReady { samples, sample_rate },
            timestamp,
            now,
            config,
        ) == (
            AppView { status: "⏳ Transcribing..."@, is_processing: true, ..app },
            ReactionView::<F>::Transcribe { samples, sample_rate },
        ),
        after_event(app, EventView::Transcribing, timestamp, now, config) == (
            AppView { status: "⏳ Transcribing..."@, ..app },
            ReactionView::<F>::Nothing,
        ),
        after_event(app, EventView::ClassifyingIntent, timestamp, now, config) == (
            AppView { status: "🧠 Classifying intent..."@, ..app },
            ReactionView::<F>::Nothing,
        ),
        after_event(app, EventView::StatusMessage(message), timestamp, now, config) == (
            AppView { status: message, ..app },
            ReactionView::<F>::Nothing,
        ),
        after_event(app, EventView::TranscriptReady { text: message }, timestamp, now, config)
            == after_transcript(app, message, timestamp, config),
        ({
            let (after, reaction) = after_event(
                app,
                EventView::Error(message),
                timestamp,
                now,
                config,
            );
            &&& reaction == ReactionView::<F>::Nothing
            &&& after.flash == Some(("❌ "@ + message, now))
            &&& !after.is_processing
            &&& after == (AppView {
                flash: after.flash,
                is_processing: false,
                status: crate::ui::ready_words(app.continuous_audio),
                ..app
            })
        }),
        ({
            let (after, reaction) = after_event(
                app,
                EventView::LlmResponse(action),
                timestamp,
                now,
                config,
            );
            &&& after.document == app.document.apply(action)
            &&& !after.is_processing
            &&& after.document.rendered() == app.document.rendered() ==> reaction
                == ReactionView::<F>::Nothing
            &&& after.document.rendered() != app.document.rendered() && config.output_file is None
                ==> reaction == ReactionView::<F>::Nothing
            &&& after.document.rendered() != app.document.rendered() ==> (config.output_file matches Some(
                path,
            ) ==> reaction == (ReactionView::<F>::WriteOutput {
                path,
                content: after.document.rendered(),
            }))
        }),
{
}

/// A result counts only where the audio source has not been changed since the work began: a
/// transcript is passed on whole, a failed transcription is reported, a classification is passed
/// on, and an utterance that could not be classified is typed.
pub proof fn law_results_of_another_source_are_dropped<F>(
    text: Seq<char>,
    action: ActionView,
    started_at: u64,
    epoch: u64,
)
    ensures
        started_at != epoch ==> {
            &&& transcribed::<F>(Ok(text), started_at, epoch) is None
            &&& transcribed::<F>(Err(text), started_at, epoch) is None
            &&& classified_at::<F>(Some(action), text, started_at, epoch) is None
            &&& classified_at::<F>(None, text, started_at, epoch) is None
        },
        started_at == epoch ==> {
            &&& transcribed::<F>(Ok(text), started_at, epoch) == Some(
                EventView::<F>::TranscriptReady { text },
            )
            &&& transcribed::<F>(Err(text), started_at, epoch) == Some(
                EventView::<F>::Error("ASR error: "@ + text),
            )
            &&& classified_at::<F>(Some(action), text, started_at, epoch) == Some(
                EventView::<F>::LlmResponse(action),
            )
            &&& classified_at::<F>(None, text, started_at, epoch) == Some(
                EventView::<F>::LlmResponse(ActionView::Dictate { text }),
            )
        },
{
}

/// The output file is given the whole text of the document.
pub proof fn law_the_whole_text_is_written<F>(document: DocumentView, path: Seq<char>)
    ensures
        output_written::<F>(document, Some(path)) == (ReactionView::<F>::WriteOutput {
            path,
            content: document.rendered(),
        }),
        output_written::<F>(document, None) == ReactionView::<F>::Nothing,
{
}

/// An utterance changes nothing but the document, the log and the status.
pub proof fn law_utterances_change_nothing_else<F>(
    app: AppView<F>,
    text: Seq<char>,
    timestamp: Seq<char>,
    config: ConfigView,
)
    ensures
        ({
            let after = after_transcript(app, text, timestamp, config).0;
            after == (AppView {
                document: after.document,
                transcript_log: after.transcript_log,
                log_scroll: after.log_scroll,
                is_processing: after.is_processing,
                status: after.status,
                ..app
            })
        }),
        trimmed(text).len() == 0 || app.output_source == OutputSource::Asr || !config.has_llm_api()
            ==> after_transcript(app, text, timestamp, config).0.status == crate::ui::ready_words(
            app.continuous_audio,
        ),
        trimmed(text).len() > 0 && app.output_source == OutputSource::Llm && config.has_llm_api()
            ==> after_transcript(app, text, timestamp, config).0.status
            == "🧠 Classifying intent..."@,
{
    crate::intent::law_offline_classification_never_converses(
        crate::text::lowered(trimmed(text)),
        text,
    );
}

/// A classification does to the state what its action does, and then the application is ready.
pub proof fn law_classifications_are_carried_out<F>(
    app: AppView<F>,
    action: ActionView,
    timestamp: Seq<char>,
    now: Instant,
    config: ConfigView,
)
    ensures
        after_event(app, EventView::LlmResponse(action), timestamp, now, config).0 == app.apply(
            action,
        ).ready(),
{
}

} // verus!
