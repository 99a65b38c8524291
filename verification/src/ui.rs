//! The application state.
use crate::clock::{is_time_of_day, nanos_since, time_of_day};
use crate::config::OutputSource;
use crate::document::{Document, DocumentView};
use crate::events::{ActionView, LlmAction};
use crate::text::{concat3, text_view};
use std::time::Instant;
use vstd::prelude::*;

verus! {

/// The number of entries that the transcript log keeps.
pub const MAX_LOG_ENTRIES: usize = 100;

/// How long a flash message stays, in nanoseconds.
pub const FLASH_NANOS: u128 = 3_000_000_000;

/// A single entry in the transcript log.
#[derive(Debug, Clone)]
pub struct TranscriptEntry {
    pub timestamp: String,
    pub raw_text: String,
    pub intent: String,
    pub detail: String,
}

/// An entry with its texts taken by their characters.
#[verifier::ext_equal]
pub struct EntryView {
    pub timestamp: Seq<char>,
    pub raw_text: Seq<char>,
    pub intent: Seq<char>,
    pub detail: Seq<char>,
}

impl View for TranscriptEntry {
    type V = EntryView;

    open spec fn view(&self) -> EntryView {
        EntryView {
            timestamp: self.timestamp@,
            raw_text: self.raw_text@,
            intent: self.intent@,
            detail: self.detail@,
        }
    }
}

/// The entries of a log, taken by their contents.
pub open spec fn entries(log: Seq<TranscriptEntry>) -> Seq<EntryView> {
    log.map_values(|e: TranscriptEntry| e@)
}

/// What the user is being asked about the audio source.
#[derive(Debug)]
pub enum SourcePrompt {
    /// Which kind of source.
    Choice,
    /// The path of an audio file, as far as it has been entered.
    FilePath(String),
}

/// A prompt with its text taken by its characters.
pub enum PromptView {
    Choice,
    FilePath(Seq<char>),
}

impl View for SourcePrompt {
    type V = PromptView;

    open spec fn view(&self) -> PromptView {
        match *self {
            SourcePrompt::Choice => PromptView::Choice,
            SourcePrompt::FilePath(path) => PromptView::FilePath(path@),
        }
    }
}

/// The main application state.
///
/// `F` is the type of an audio level.
pub struct App<F> {
    /// The document being typed.
    pub document: Document,
    /// Whether the agent is currently listening for speech.
    pub is_listening: bool,
    /// Whether the agent is currently processing (transcribing/classifying).
    pub is_processing: bool,
    /// Current status message displayed in the status panel.
    pub status: String,
    /// Log of recent transcript entries.
    pub transcript_log: Vec<TranscriptEntry>,
    /// Current audio input level.
    pub audio_level: F,
    /// Whether the application should quit.
    pub should_quit: bool,
    /// Most recent conversation response from the LLM.
    pub conversation_response: Option<String>,
    /// Document scroll offset.
    pub doc_scroll: u16,
    /// Transcript scroll offset.
    pub log_scroll: u16,
    /// Flash message (temporary notification), and when it was set.
    pub flash_message: Option<(String, Instant)>,
    /// Which result of the pipeline is typed.
    pub output_source: OutputSource,
    /// Description of the speech recogniser.
    pub asr_info: String,
    /// Description of the language model.
    pub llm_info: String,
    /// Description of the audio source.
    pub audio_source_info: String,
    /// Whether audio keeps coming.
    pub continuous_audio: bool,
    /// What the user is being asked, if anything.
    pub source_prompt: Option<SourcePrompt>,
}

/// The application state with its texts and lists taken by their contents.
#[verifier::ext_equal]
pub struct AppView<F> {
    pub document: DocumentView,
    pub is_listening: bool,
    pub is_processing: bool,
    pub status: Seq<char>,
    pub transcript_log: Seq<EntryView>,
    pub audio_level: F,
    pub should_quit: bool,
    pub conversation_response: Option<Seq<char>>,
    pub doc_scroll: u16,
    pub log_scroll: u16,
    pub flash: Option<(Seq<char>, Instant)>,
    pub output_source: OutputSource,
    pub asr_info: Seq<char>,
    pub llm_info: Seq<char>,
    pub audio_source_info: Seq<char>,
    pub continuous_audio: bool,
    pub source_prompt: Option<PromptView>,
}

/// A flash message with its text taken by its characters.
pub open spec fn flash_view(flash: Option<(String, Instant)>) -> Option<(Seq<char>, Instant)> {
    match flash {
        Some((message, created)) => Some((message@, created)),
        None => None,
    }
}

/// An optional prompt, taken by its contents.
pub open spec fn prompt_view(prompt: Option<SourcePrompt>) -> Option<PromptView> {
    match prompt {
        Some(p) => Some(p@),
        None => None,
    }
}

impl<F> View for App<F> {
    type V = AppView<F>;

    open spec fn view(&self) -> AppView<F> {
        AppView {
            document: self.document@,
            is_listening: self.is_listening,
            is_processing: self.is_processing,
            status: self.status@,
            transcript_log: entries(self.transcript_log@),
            audio_level: self.audio_level,
            should_quit: self.should_quit,
            conversation_response: text_view(self.conversation_response),
            doc_scroll: self.doc_scroll,
            log_scroll: self.log_scroll,
            flash: flash_view(self.flash_message),
            output_source: self.output_source,
            asr_info: self.asr_info@,
            llm_info: self.llm_info@,
            audio_source_info: self.audio_source_info@,
            continuous_audio: self.continuous_audio,
            source_prompt: prompt_view(self.source_prompt),
        }
    }
}

/// The status of an application that waits for speech.
pub open spec fn ready_words(continuous_audio: bool) -> Seq<char> {
    if continuous_audio {
        "Ready — Listening..."@
    } else {
        "Ready"@
    }
}

/// What the log says of a command.
pub open spec fn command_detail(
    command: crate::events::EditCommand,
    text: Option<Seq<char>>,
) -> Seq<char> {
    match text {
        Some(t) => command.label() + ": "@ + t,
        None => command.label(),
    }
}

impl<F> AppView<F> {
    /// The invariant of the application state: the document is well formed, and the log is no
    /// longer than it may be.
    pub open spec fn well_formed(self) -> bool {
        self.document.well_formed() && self.transcript_log.len() <= MAX_LOG_ENTRIES
    }

    /// The state of an application that has just started.
    pub open spec fn initial(document: DocumentView, silence: F) -> AppView<F> {
        AppView {
            document,
            is_listening: true,
            is_processing: false,
            status: ready_words(true),
            transcript_log: Seq::empty(),
            audio_level: silence,
            should_quit: false,
            conversation_response: None,
            doc_scroll: 0,
            log_scroll: 0,
            flash: None,
            output_source: OutputSource::Llm,
            asr_info: Seq::empty(),
            llm_info: Seq::empty(),
            audio_source_info: Seq::empty(),
            continuous_audio: true,
            source_prompt: None,
        }
    }

    /// The log with an entry added, and the oldest one dropped where there are too many.
    pub open spec fn log_with(self, entry: EntryView) -> Seq<EntryView> {
        let all = self.transcript_log.push(entry);
        if all.len() > MAX_LOG_ENTRIES {
            all.skip(1)
        } else {
            all
        }
    }

    /// The state with an entry added to the log, scrolled to the end.
    pub open spec fn logged(self, entry: EntryView) -> AppView<F> {
        AppView {
            transcript_log: self.log_with(entry),
            log_scroll: (self.log_with(entry).len() - 1) as u16,
            ..self
        }
    }

    /// The log with the intent of its last entry filled in.
    pub open spec fn classified(self, intent: Seq<char>, detail: Seq<char>) -> AppView<F> {
        if self.transcript_log.len() == 0 {
            self
        } else {
            AppView {
                transcript_log: self.transcript_log.drop_last().push(
                    EntryView { intent, detail, ..self.transcript_log.last() },
                ),
                ..self
            }
        }
    }

    /// The state after a classified utterance.
    pub open spec fn apply(self, action: ActionView) -> AppView<F> {
        match action {
            ActionView::Dictate { text } => AppView {
                document: self.document.apply(action),
                ..self.classified("dictate"@, text)
            },
            ActionView::Command { action: command, text } => AppView {
                document: self.document.apply(action),
                ..self.classified("command"@, command_detail(command, text))
            },
            ActionView::Conversation { response } => AppView {
                conversation_response: Some(response),
                ..self.classified("chat"@, response)
            },
        }
    }

    /// The state with a flash message that was set at a reading of the clock.
    pub open spec fn flashing(self, message: Seq<char>, now: Instant) -> AppView<F> {
        AppView { flash: Some((message, now)), ..self }
    }

    /// The reading of the clock at which the flash message was set.
    pub open spec fn flash_time(self) -> Instant {
        self.flash->Some_0.1
    }

    /// The state when a session begins with what the application works with.
    pub open spec fn session_begun(
        self,
        output_source: OutputSource,
        asr_info: Seq<char>,
        llm_info: Seq<char>,
        audio_source_info: Seq<char>,
        continuous_audio: bool,
    ) -> AppView<F> {
        AppView {
            output_source,
            asr_info,
            llm_info,
            audio_source_info,
            continuous_audio,
            is_listening: continuous_audio,
            status: ready_words(continuous_audio),
            ..self
        }
    }

    /// The state when another audio source has been taken.
    pub open spec fn source_switched(self, name: Seq<char>, live: bool, silence: F) -> AppView<F> {
        AppView {
            audio_source_info: name,
            continuous_audio: live,
            is_listening: live,
            is_processing: false,
            audio_level: silence,
            status: ready_words(live),
            ..self
        }
    }

    /// The state in which the application waits for the next utterance.
    pub open spec fn ready(self) -> AppView<F> {
        AppView { is_processing: false, status: ready_words(self.continuous_audio), ..self }
    }
}

impl<F> App<F> {
    /// Create a new App with the given document, at an audio level.
    pub fn new(document: Document, silence: F) -> (r: App<F>)
        ensures
            r@ == AppView::initial(document@, silence),
    {
        let r: App<F> = App {
            document,
            is_listening: true,
            is_processing: false,
            status: "Ready — Listening...".to_string(),
            transcript_log: Vec::new(),
            audio_level: silence,
            should_quit: false,
            conversation_response: None,
            doc_scroll: 0,
            log_scroll: 0,
            flash_message: None,
            output_source: OutputSource::Llm,
            asr_info: String::new(),
            llm_info: String::new(),
            audio_source_info: String::new(),
            continuous_audio: true,
            source_prompt: None,
        };
        assert(r@ =~= AppView::initial(document@, silence));
        r
    }

    /// The status of the application while it waits for speech.
    pub fn ready_status(&self) -> (r: String)
        ensures
            r@ == ready_words(self@.continuous_audio),
    {
        if self.continuous_audio {
            "Ready — Listening...".to_string()
        } else {
            "Ready".to_string()
        }
    }

    /// Fills in what the application works with.
    pub fn begin_session(
        &mut self,
        output_source: OutputSource,
        asr_info: String,
        llm_info: String,
        audio_source_info: String,
        continuous_audio: bool,
    )
        ensures
            final(self)@ == old(self)@.session_begun(
                output_source,
                asr_info@,
                llm_info@,
                audio_source_info@,
                continuous_audio,
            ),
            final(self)@ == (AppView {
                output_source,
                asr_info: asr_info@,
                llm_info: llm_info@,
                audio_source_info: audio_source_info@,
                continuous_audio,
                is_listening: continuous_audio,
                status: ready_words(continuous_audio),
                ..old(self)@
            }),
    {
        self.output_source = output_source;
        self.asr_info = asr_info;
        self.llm_info = llm_info;
        self.audio_source_info = audio_source_info;
        self.continuous_audio = continuous_audio;
        self.is_listening = continuous_audio;
        self.status = self.ready_status();
    }

    /// Goes over to another audio source.
    pub fn switch_source(&mut self, name: String, live: bool, silence: F)
        ensures
            final(self)@ == old(self)@.source_switched(name@, live, silence),
            final(self)@ == (AppView {
                audio_source_info: name@,
                continuous_audio: live,
                is_listening: live,
                is_processing: false,
                audio_level: silence,
                status: ready_words(live),
                ..old(self)@
            }),
    {
        self.audio_source_info = name;
        self.continuous_audio = live;
        self.is_listening = live;
        self.is_processing = false;
        self.audio_level = silence;
        self.status = self.ready_status();
    }

    /// Add a transcript entry to the log, with the time at which it came in.
    pub fn log_entry(&mut self, timestamp: String, raw_text: &str, intent: &str, detail: &str)
        ensures
            final(self)@ == old(self)@.logged(
                EntryView {
                    timestamp: timestamp@,
                    raw_text: raw_text@,
                    intent: intent@,
                    detail: detail@,
                },
            ),
    {
        let ghost entry = EntryView {
            timestamp: timestamp@,
            raw_text: raw_text@,
            intent: intent@,
            detail: detail@,
        };
        self.transcript_log.push(
            TranscriptEntry {
                timestamp,
                raw_text: raw_text.to_string(),
                intent: intent.to_string(),
                detail: detail.to_string(),
            },
        );
        assert(entries(self.transcript_log@) =~= old(self)@.transcript_log.push(entry));
        // Keep log manageable
        if self.transcript_log.len() > MAX_LOG_ENTRIES {
            let ghost all = self.transcript_log@;
            self.transcript_log.remove(0);
            assert(entries(self.transcript_log@) =~= entries(all).skip(1));
        }
        // Auto-scroll to bottom

        self.log_scroll = (self.transcript_log.len() - 1) as u16;
        assert(self@ =~= old(self)@.logged(entry));
    }

    /// Add a transcript entry to the log.
    pub fn add_transcript_entry(&mut self, raw_text: &str, intent: &str, detail: &str)
        ensures
            exists|timestamp: Seq<char>|
                is_time_of_day(timestamp) && final(self)@ == #[trigger] old(self)@.logged(
                    EntryView {
                        timestamp,
                        raw_text: raw_text@,
                        intent: intent@,
                        detail: detail@,
                    },
                ),
    {
        let timestamp: String = time_of_day();
        let ghost t = timestamp@;
        self.log_entry(timestamp, raw_text, intent, detail);
        assert(is_time_of_day(t) && self@ == old(self)@.logged(
            EntryView { timestamp: t, raw_text: raw_text@, intent: intent@, detail: detail@ },
        ));
    }

    /// Apply a classified utterance to the app state.
    pub fn apply_action(&mut self, action: LlmAction)
        ensures
            final(self)@ == old(self)@.apply(action@),
    {
        match &action {
            LlmAction::Dictate { text } => {
                self.update_last_transcript("dictate", text.as_str());
                self.document.apply_action(&action);
            },
            LlmAction::Command { action: cmd, text } => {
                let detail: String = match text {
                    Some(t) => concat3(cmd.log_label(), ": ", t.as_str()),
                    None => cmd.log_label().to_string(),
                };
                self.update_last_transcript("command", detail.as_str());
                self.document.apply_action(&action);
            },
            LlmAction::Conversation { response } => {
                self.update_last_transcript("chat", response.as_str());
                self.conversation_response = Some(response.clone());
            },
        }
        assert(self@ =~= old(self)@.apply(action@));
    }

    /// Update the last transcript entry with the classified intent.
    fn update_last_transcript(&mut self, intent: &str, detail: &str)
        ensures
            final(self)@ == old(self)@.classified(intent@, detail@),
    {
        if let Some(last) = self.transcript_log.pop() {
            self.transcript_log.push(
                TranscriptEntry {
                    timestamp: last.timestamp,
                    raw_text: last.raw_text,
                    intent: intent.to_string(),
                    detail: detail.to_string(),
                },
            );
        }
        assert(self@ =~= old(self)@.classified(intent@, detail@));
    }

    /// Set a flash message that auto-clears after a few seconds.
    pub fn set_flash(&mut self, message: String)
        ensures
            final(self)@ == old(self)@.flashing(message@, final(self)@.flash_time()),
    {
        self.flash_message = Some((message, Instant::now()));
        assert(self@ =~= old(self)@.flashing(message@, self@.flash_time()));
    }

    /// Clear the flash message where it has been there for long enough.
    pub fn expire_flash(&mut self, elapsed_nanos: u128)
        ensures
            *final(self) == old(self).after_wait(elapsed_nanos),
            final(self)@ == if elapsed_nanos > FLASH_NANOS {
                AppView { flash: None, ..old(self)@ }
            } else {
                old(self)@
            },
    {
        if elapsed_nanos > FLASH_NANOS {
            self.flash_message = None;
        }
    }

    /// Clear expired flash messages.  How long a message has been there, the clock says.
    pub fn tick(&mut self)
        ensures
            old(self)@.flash is None ==> *final(self) == *old(self),
            exists|nanos: u128| *final(self) == #[trigger] old(self).after_wait(nanos),
            final(self)@ == old(self)@ || final(self)@ == (AppView { flash: None, ..old(self)@ }),
    {
        let elapsed: Option<u128> = match &self.flash_message {
            Some((_, created)) => Some(nanos_since(created)),
            None => None,
        };
        assert(*self == self.after_wait(0));
        if let Some(nanos) = elapsed {
            self.expire_flash(nanos);
        }
    }

    /// Gets ready for the next utterance.
    pub fn make_ready(&mut self)
        ensures
            final(self)@ == old(self)@.ready(),
    {
        self.is_processing = false;
        self.status = self.ready_status();
        assert(self@ =~= old(self)@.ready());
    }
}

impl<F> App<F> {
    /// The application when its flash message has been there for a number of nanoseconds: the
    /// message is gone where that is long enough, and else stays with the time at which it was
    /// set.
    pub open spec fn after_wait(self, nanos: u128) -> App<F> {
        if nanos > FLASH_NANOS {
            App { flash_message: None, ..self }
        } else {
            self
        }
    }
}

/// Conversation is shown and not typed.
pub proof fn law_conversation_is_not_typed<F>(app: AppView<F>, response: Seq<char>)
    ensures
        app.apply(ActionView::Conversation { response }).document == app.document,
        app.apply(ActionView::Conversation { response }).conversation_response == Some(response),
{
}

/// Dictation and commands do to the document what they say, and nothing else in the state but
/// the log changes.
pub proof fn law_actions_reach_the_document<F>(app: AppView<F>, action: ActionView)
    ensures
        app.apply(action).document == app.document.apply(action),
        app.apply(action) == (AppView {
            document: app.apply(action).document,
            transcript_log: app.apply(action).transcript_log,
            conversation_response: app.apply(action).conversation_response,
            ..app
        }),
{
}

/// The state stays well formed: the log never outgrows its limit.
pub proof fn law_well_formed_is_kept<F>(app: AppView<F>, entry: EntryView, action: ActionView)
    requires
        app.well_formed(),
    ensures
        app.logged(entry).well_formed(),
        app.apply(action).well_formed(),
        app.ready().well_formed(),
{
    crate::history::law_well_formed_is_kept(app.document, action);
}

/// An entry that was added is the last of the log, and a classification fills in the intent of
/// that entry and leaves what was heard.
pub proof fn law_the_last_utterance_is_classified<F>(
    app: AppView<F>,
    entry: EntryView,
    action: ActionView,
)
    requires
        app.well_formed(),
    ensures
        app.logged(entry).transcript_log.last() == entry,
        app.logged(entry).apply(action).transcript_log.last().raw_text == entry.raw_text,
        app.logged(entry).apply(action).transcript_log.last().timestamp == entry.timestamp,
        app.logged(entry).apply(action).transcript_log.last().intent == match action {
            ActionView::Dictate { .. } => "dictate"@,
            ActionView::Command { .. } => "command"@,
            ActionView::Conversation { .. } => "chat"@,
        },
{
}

/// A new application holds the document, listens, and has nothing to show.
pub proof fn law_a_new_application<F>(document: DocumentView, silence: F)
    ensures
        ({
            let app = AppView::initial(document, silence);
            &&& app.document == document
            &&& app.audio_level == silence
            &&& app.is_listening && app.continuous_audio
            &&& !app.is_processing && !app.should_quit
            &&& app.status == "Ready — Listening..."@
            &&& app.transcript_log.len() == 0
            &&& app.conversation_response is None && app.flash is None
            &&& app.source_prompt is None
            &&& app.doc_scroll == 0 && app.log_scroll == 0
            &&& app.output_source == OutputSource::Llm
        }),
{
}

/// The log grows by the entry, and loses its oldest one where it is full; it is scrolled to the
/// entry, and nothing else in the state changes.
pub proof fn law_the_log_keeps_the_latest_entries<F>(app: AppView<F>, entry: EntryView)
    requires
        app.well_formed(),
    ensures
        ({
            let after = app.logged(entry);
            let log = app.transcript_log;
            &&& log.len() < 100 ==> after.transcript_log == log + seq![entry]
            &&& log.len() == 100 ==> after.transcript_log == log.skip(1) + seq![entry]
            &&& after.log_scroll == after.transcript_log.len() - 1
            &&& after == (AppView {
                transcript_log: after.transcript_log,
                log_scroll: after.log_scroll,
                ..app
            })
        }),
{
    let log = app.transcript_log;
    let after = app.logged(entry).transcript_log;
    if log.len() < 100 {
        assert(after =~= log + seq![entry]);
    } else {
        assert(after =~= log.skip(1) + seq![entry]);
    }
}

/// A classified utterance fills in the last entry of the log: what it was taken for, and the text,
/// the command or the answer.  The other entries stay, and so does what was heard.
pub proof fn law_what_the_log_says<F>(app: AppView<F>, action: ActionView)
    ensures
        ({
            let old_log = app.transcript_log;
            let log = app.apply(action).transcript_log;
            let n = old_log.len() - 1;
            &&& log.len() == old_log.len()
            &&& forall|i: int| 0 <= i < n ==> #[trigger] log[i] == old_log[i]
            &&& n >= 0 ==> log[n].raw_text == old_log[n].raw_text && log[n].timestamp
                == old_log[n].timestamp
            &&& n >= 0 ==> match action {
                ActionView::Dictate { text } => log[n].intent == "dictate"@ && log[n].detail == text,
                ActionView::Command { action: command, text } => log[n].intent == "command"@
                    && log[n].detail == match text {
                    Some(t) => command.label() + ": "@ + t,
                    None => command.label(),
                },
                ActionView::Conversation { response } => log[n].intent == "chat"@ && log[n].detail
                    == response,
            }
        }),
        !(action is Conversation) ==> app.apply(action).conversation_response
            == app.conversation_response,
{
}

/// A flash message is shown with the time at which it was set, and getting ready ends the
/// processing; neither changes anything else.
pub proof fn law_messages_and_status<F>(app: AppView<F>, message: Seq<char>, now: Instant)
    ensures
        app.flashing(message, now).flash == Some((message, now)),
        app.flashing(message, now) == (AppView { flash: app.flashing(message, now).flash, ..app }),
        !app.ready().is_processing,
        app.continuous_audio ==> app.ready().status == "Ready — Listening..."@,
        !app.continuous_audio ==> app.ready().status == "Ready"@,
        app.ready() == (AppView { is_processing: false, status: app.ready().status, ..app }),
{
}

/// A flash message stays for three seconds, and nothing else goes with it.
pub proof fn law_flash_messages_stay_for_three_seconds<F>(app: App<F>, nanos: u128)
    ensures
        nanos <= 3_000_000_000 ==> app.after_wait(nanos) == app,
        nanos > 3_000_000_000 ==> app.after_wait(nanos) == (App { flash_message: None, ..app }),
{
}

/// Beginning a session and going over to another source fill in what they are given, listen where
/// audio keeps coming, and leave the document, the log and the messages.
pub proof fn law_sources_are_taken_over<F>(
    app: AppView<F>,
    output_source: OutputSource,
    asr: Seq<char>,
    llm: Seq<char>,
    name: Seq<char>,
    live: bool,
    silence: F,
)
    ensures
        ({
            let begun = app.session_begun(output_source, asr, llm, name, live);
            let switched = app.source_switched(name, live, silence);
            &&& begun.output_source == output_source && begun.asr_info == asr && begun.llm_info
                == llm
            &&& begun.audio_source_info == name && switched.audio_source_info == name
            &&& begun.continuous_audio == live && switched.continuous_audio == live
            &&& begun.is_listening == live && switched.is_listening == live
            &&& !switched.is_processing && switched.audio_level == silence
            &&& begun.status == ready_words(live) && switched.status == ready_words(live)
            &&& begun.document == app.document && switched.document == app.document
            &&& begun.transcript_log == app.transcript_log && switched.transcript_log
                == app.transcript_log
            &&& begun.flash == app.flash && switched.flash == app.flash
            &&& begun.source_prompt == app.source_prompt && switched.source_prompt
                == app.source_prompt
            &&& begun.is_processing == app.is_processing && begun.audio_level == app.audio_level
            &&& switched.output_source == app.output_source && switched.asr_info == app.asr_info
                && switched.llm_info == app.llm_info
            &&& begun.conversation_response == app.conversation_response
                && switched.conversation_response == app.conversation_response
            &&& begun.should_quit == app.should_quit && switched.should_quit == app.should_quit
            &&& begun.doc_scroll == app.doc_scroll && switched.doc_scroll == app.doc_scroll
            &&& begun.log_scroll == app.log_scroll && switched.log_scroll == app.log_scroll
        }),
{
}

} // verus!
