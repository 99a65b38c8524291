//! How the application reacts to keys.
use crate::audio::{
    check_view, checked_file, may_be_named, validate_audio_path, AudioError, AudioErrorView,
    AudioSource, SourceView,
};
use crate::cli::{clean_path, entered_path};
use crate::clock::{file_stamp, is_file_stamp};
use crate::config::{Config, ConfigView, OutputFormat};
use crate::document::DocumentView;
use crate::session::{output_reaction, Reaction};
use crate::text::{chars_of, concat, concat3, decimal, decimal_string};
use crate::ui::{ready_words, App, AppView, PromptView, SourcePrompt};
use std::time::Instant;
use vstd::prelude::*;

verus! {

/// The modifier keys that are down.
#[derive(Debug, Clone, Copy, PartialEq, Eq, Structural)]
pub struct Modifiers {
    /// The control key.
    pub control: bool,
    /// Any other modifier key.
    pub other: bool,
}

/// A key.
#[derive(Debug, Clone, Copy, PartialEq, Eq, Structural)]
pub enum KeyCode {
    Char(char),
    Esc,
    Tab,
    Up,
    Down,
    Enter,
    Backspace,
    /// A key that means nothing to the application.
    Other,
}

/// A key that was pressed, with the modifier keys that were down.
#[derive(Debug, Clone, Copy, PartialEq, Eq, Structural)]
pub struct KeyPress {
    pub modifiers: Modifiers,
    pub code: KeyCode,
}

impl KeyPress {
    /// Whether a key was pressed with no modifier.
    pub open spec fn is_plain(self, code: KeyCode) -> bool {
        !self.modifiers.control && !self.modifiers.other && self.code == code
    }

    /// Whether a character key was pressed with the control key alone.
    pub open spec fn is_control(self, c: char) -> bool {
        self.modifiers.control && !self.modifiers.other && self.code == KeyCode::Char(c)
    }

    /// Tests whether a key was pressed with no modifier.
    fn plain(&self, code: KeyCode) -> (r: bool)
        ensures
            r == self.is_plain(code),
    {
        !self.modifiers.control && !self.modifiers.other && self.code == code
    }

    /// Tests whether a character key was pressed with the control key alone.
    fn control(&self, c: char) -> (r: bool)
        ensures
            r == self.is_control(c),
    {
        self.modifiers.control && !self.modifiers.other && self.code == KeyCode::Char(c)
    }
}

/// What is to be done outside when a key has been handled.
#[derive(Debug)]
pub enum KeyAction {
    /// Leave the application.
    Quit,
    /// Nothing.
    Continue,
    /// Write the text of the document to a file in the directory for saved documents.
    Save { filename: String, content: String },
    /// Put the text of the document on the clipboard.
    Copy { text: String },
    /// Type the text of the document into the focused window.
    TypeOut { text: String },
    /// Pause or resume the audio capture.
    ToggleListening,
    /// Write the text of the document to the output file.
    WriteOutput { path: String, content: String },
}

/// An action with its texts taken by their characters.
pub enum KeyActionView {
    Quit,
    Continue,
    Save { filename: Seq<char>, content: Seq<char> },
    Copy { text: Seq<char> },
    TypeOut { text: Seq<char> },
    ToggleListening,
    WriteOutput { path: Seq<char>, content: Seq<char> },
}

impl View for KeyAction {
    type V = KeyActionView;

    open spec fn view(&self) -> KeyActionView {
        match *self {
            KeyAction::Quit => KeyActionView::Quit,
            KeyAction::Continue => KeyActionView::Continue,
            KeyAction::Save { filename, content } => KeyActionView::Save {
                filename: filename@,
                content: content@,
            },
            KeyAction::Copy { text } => KeyActionView::Copy { text: text@ },
            KeyAction::TypeOut { text } => KeyActionView::TypeOut { text: text@ },
            KeyAction::ToggleListening => KeyActionView::ToggleListening,
            KeyAction::WriteOutput { path, content } => KeyActionView::WriteOutput {
                path: path@,
                content: content@,
            },
        }
    }
}

/// The name of a saved document.
pub open spec fn saved_name(stamp: Seq<char>, format: OutputFormat) -> Seq<char> {
    "typist_"@ + stamp + "."@ + format.extension()
}

/// The name of a document that is saved at a time.
pub fn save_filename(stamp: &str, format: OutputFormat) -> (r: String)
    ensures
        r@ == saved_name(stamp@, format),
{
    let mut r: String = concat3("typist_", stamp, ".");
    r.append(format.file_extension());
    r
}

/// Keeping the output file current after a key.
pub open spec fn output_after_key(
    document: DocumentView,
    output_file: Option<Seq<char>>,
) -> KeyActionView {
    match output_file {
        Some(path) => KeyActionView::WriteOutput { path, content: document.rendered() },
        None => KeyActionView::Continue,
    }
}

/// The state after a key, and what is to be done about it.  A document is saved under the time
/// `stamp`, a message that is flashed is set at the reading `now` of the clock, and `live` is
/// whether there is audio capture that can be paused.
pub open spec fn after_key<F>(
    app: AppView<F>,
    key: KeyPress,
    stamp: Seq<char>,
    now: Instant,
    config: ConfigView,
    live: bool,
) -> (AppView<F>, KeyActionView) {
    if key.is_plain(KeyCode::Char('q')) || key.is_plain(KeyCode::Esc) {
        (app, KeyActionView::Quit)
    } else if key.is_control('s') {
        (
            app,
            KeyActionView::Save {
                filename: saved_name(stamp, app.document.format),
                content: app.document.rendered(),
            },
        )
    } else if key.is_control('y') {
        if app.document.rendered().len() == 0 {
            (app.flashing("📋 Document is empty"@, now), KeyActionView::Continue)
        } else {
            (app, KeyActionView::Copy { text: app.document.rendered() })
        }
    } else if key.is_control('e') {
        if app.document.rendered().len() == 0 {
            (app.flashing("Document is empty"@, now), KeyActionView::Continue)
        } else {
            (app, KeyActionView::TypeOut { text: app.document.rendered() })
        }
    } else if key.is_control('z') {
        if app.document.undo.len() > 0 {
            let document = app.document.undone();
            (
                AppView { document, ..app }.flashing("↩️ Undo"@, now),
                output_after_key(document, config.output_file),
            )
        } else {
            (app.flashing("Nothing to undo"@, now), KeyActionView::Continue)
        }
    } else if key.is_control('r') {
        if app.document.redo.len() > 0 {
            let document = app.document.redone();
            (
                AppView { document, ..app }.flashing("↪️ Redo"@, now),
                output_after_key(document, config.output_file),
            )
        } else {
            (app.flashing("Nothing to redo"@, now), KeyActionView::Continue)
        }
    } else if key.is_plain(KeyCode::Char(' ')) {
        if live {
            (app, KeyActionView::ToggleListening)
        } else {
            (app.flashing("Pause is only available for live audio"@, now), KeyActionView::Continue)
        }
    } else if key.is_plain(KeyCode::Tab) {
        let document = app.document.format_toggled();
        (
            AppView { document, ..app }.flashing("📝 Format: "@ + document.format.name(), now),
            KeyActionView::Continue,
        )
    } else if key.is_plain(KeyCode::Char('m')) {
        let output_source = app.output_source.other();
        (
            AppView { output_source, ..app }.flashing("Output: "@ + output_source.name(), now),
            KeyActionView::Continue,
        )
    } else if key.is_plain(KeyCode::Char('a')) {
        (AppView { source_prompt: Some(PromptView::Choice), ..app }, KeyActionView::Continue)
    } else if key.is_plain(KeyCode::Up) {
        (
            AppView {
                doc_scroll: if app.doc_scroll > 0 {
                    (app.doc_scroll - 1) as u16
                } else {
                    0
                },
                ..app
            },
            KeyActionView::Continue,
        )
    } else if key.is_plain(KeyCode::Down) {
        (
            AppView {
                doc_scroll: if app.doc_scroll < u16::MAX {
                    (app.doc_scroll + 1) as u16
                } else {
                    u16::MAX
                },
                ..app
            },
            KeyActionView::Continue,
        )
    } else {
        (app, KeyActionView::Continue)
    }
}

/// What keeping the output file current takes after a key.
fn output_action<F>(app: &App<F>, config: &Config) -> (r: KeyAction)
    ensures
        r@ == output_after_key(app@.document, config@.output_file),
{
    match output_reaction(app, config) {
        Reaction::WriteOutput { path, content } => KeyAction::WriteOutput { path, content },
        _ => KeyAction::Continue,
    }
}

/// Handles a key that was pressed at a time.
pub fn handle_key_at<F>(
    app: &mut App<F>,
    key: KeyPress,
    stamp: &str,
    config: &Config,
    live: bool,
) -> (r: KeyAction)
    ensures
        (final(app)@, r@) == after_key(
            old(app)@,
            key,
            stamp@,
            final(app)@.flash_time(),
            config@,
            live,
        ),
{
    // Quit
    if key.plain(KeyCode::Char('q')) || key.plain(KeyCode::Esc) {
        return KeyAction::Quit;
    }
    // Save document to file (Ctrl+S)

    if key.control('s') {
        return KeyAction::Save {
            filename: save_filename(stamp, app.document.output_format()),
            content: app.document.render(),
        };
    }
    // Copy to clipboard (Ctrl+Y)

    if key.control('y') {
        let text: String = app.document.render();
        if text.as_str().is_empty() {
            app.set_flash("📋 Document is empty".to_string());
            return KeyAction::Continue;
        }
        return KeyAction::Copy { text };
    }
    // Type-out to focused window (Ctrl+E)

    if key.control('e') {
        let text: String = app.document.render();
        if text.as_str().is_empty() {
            app.set_flash("Document is empty".to_string());
            return KeyAction::Continue;
        }
        return KeyAction::TypeOut { text };
    }
    // Undo (Ctrl+Z)

    if key.control('z') {
        if app.document.undo() {
            app.set_flash("↩️ Undo".to_string());
            return output_action(app, config);
        }
        app.set_flash("Nothing to undo".to_string());
        return KeyAction::Continue;
    }
    // Redo (Ctrl+R)

    if key.control('r') {
        if app.document.redo() {
            app.set_flash("↪️ Redo".to_string());
            return output_action(app, config);
        }
        app.set_flash("Nothing to redo".to_string());
        return KeyAction::Continue;
    }
    // Toggle listening (Space)

    if key.plain(KeyCode::Char(' ')) {
        if live {
            return KeyAction::ToggleListening;
        }
        app.set_flash("Pause is only available for live audio".to_string());
        return KeyAction::Continue;
    }
    // Toggle output format (Tab)

    if key.plain(KeyCode::Tab) {
        app.document.toggle_format();
        let format: OutputFormat = app.document.output_format();
        app.set_flash(concat("📝 Format: ", format.display_name()));
        return KeyAction::Continue;
    }
    // Switch the result used for future utterances

    if key.plain(KeyCode::Char('m')) {
        app.output_source = app.output_source.toggle();
        app.set_flash(concat("Output: ", app.output_source.display_name()));
        return KeyAction::Continue;
    }
    // Choose another audio source

    if key.plain(KeyCode::Char('a')) {
        app.source_prompt = Some(SourcePrompt::Choice);
        return KeyAction::Continue;
    }
    // Scroll document

    if key.plain(KeyCode::Up) {
        if app.doc_scroll > 0 {
            app.doc_scroll = app.doc_scroll - 1;
        }
    } else if key.plain(KeyCode::Down) {
        if app.doc_scroll < u16::MAX {
            app.doc_scroll = app.doc_scroll + 1;
        }
    }
    KeyAction::Continue
}

/// Handle a keyboard event.
pub fn handle_key_event<F>(app: &mut App<F>, key: KeyPress, config: &Config, live: bool) -> (r:
    KeyAction)
    ensures
        exists|stamp: Seq<char>|
            (key.is_control('s') ==> is_file_stamp(stamp)) && (final(app)@, r@)
                == #[trigger] after_key(
                old(app)@,
                key,
                stamp,
                final(app)@.flash_time(),
                config@,
                live,
            ),
{
    let stamp: String = if key.control('s') {
        file_stamp()
    } else {
        String::new()
    };
    let r: KeyAction = handle_key_at(app, key, stamp.as_str(), config, live);
    assert((app@, r@) == after_key(old(app)@, key, stamp@, app@.flash_time(), config@, live));
    r
}

/// What is said of how saving a document went.
pub open spec fn saved_words(
    filename: Seq<char>,
    result: Result<(), Seq<char>>,
) -> Seq<char> {
    match result {
        Ok(_) => "✅ Saved to "@ + filename,
        Err(e) => "❌ Save failed: "@ + e,
    }
}

/// What is said of how copying a text went.
pub open spec fn copied_words(text: Seq<char>, result: Result<(), Seq<char>>) -> Seq<char> {
    match result {
        Ok(_) => "📋 Copied "@ + decimal(text.len()) + " chars to clipboard"@,
        Err(e) => "❌ Clipboard error: "@ + e,
    }
}

/// A result whose error is in words, taken by its characters.
pub open spec fn outcome_view(result: Result<(), String>) -> Result<(), Seq<char>> {
    match result {
        Ok(_) => Ok(()),
        Err(e) => Err(e@),
    }
}

/// Reports how saving a document went; an error is given in words.
pub fn save_finished<F>(app: &mut App<F>, filename: &str, result: Result<(), String>)
    ensures
        final(app)@ == old(app)@.flashing(
            saved_words(filename@, outcome_view(result)),
            final(app)@.flash_time(),
        ),
        final(app)@ == old(app)@.flashing(
            match result {
                Ok(_) => "✅ Saved to "@ + filename@,
                Err(e) => "❌ Save failed: "@ + e@,
            },
            final(app)@.flash_time(),
        ),
{
    match result {
        Ok(_) => app.set_flash(concat("✅ Saved to ", filename)),
        Err(e) => app.set_flash(concat("❌ Save failed: ", e.as_str())),
    }
}

/// Reports how copying a text to the clipboard went; an error is given in words.
pub fn copy_finished<F>(app: &mut App<F>, text: &str, result: Result<(), String>)
    ensures
        final(app)@ == old(app)@.flashing(
            copied_words(text@, outcome_view(result)),
            final(app)@.flash_time(),
        ),
        final(app)@ == old(app)@.flashing(
            match result {
                Ok(_) => "📋 Copied "@ + decimal(text@.len()) + " chars to clipboard"@,
                Err(e) => "❌ Clipboard error: "@ + e@,
            },
            final(app)@.flash_time(),
        ),
{
    match result {
        Ok(_) => {
            let n: String = decimal_string(chars_of(text).len() as u128);
            app.set_flash(concat3("📋 Copied ", n.as_str(), " chars to clipboard"));
        },
        Err(e) => app.set_flash(concat("❌ Clipboard error: ", e.as_str())),
    }
}

/// The state when the audio capture was paused or resumed.
pub open spec fn after_toggling<F>(
    app: AppView<F>,
    now_listening: bool,
    now: Instant,
) -> AppView<F> {
    if now_listening {
        AppView { is_listening: true, status: ready_words(app.continuous_audio), ..app }.flashing(
            "▶️ Resumed listening"@,
            now,
        )
    } else {
        AppView { is_listening: false, status: "⏸ Paused"@, ..app }.flashing(
            "⏸ Paused listening"@,
            now,
        )
    }
}

/// Takes note that the audio capture was paused or resumed.
pub fn listening_toggled<F>(app: &mut App<F>, now_listening: bool)
    ensures
        final(app)@ == after_toggling(old(app)@, now_listening, final(app)@.flash_time()),
        final(app)@ == if now_listening {
            AppView {
                is_listening: true,
                status: ready_words(old(app)@.continuous_audio),
                ..old(app)@
            }.flashing("▶️ Resumed listening"@, final(app)@.flash_time())
        } else {
            AppView { is_listening: false, status: "⏸ Paused"@, ..old(app)@ }.flashing(
                "⏸ Paused listening"@,
                final(app)@.flash_time(),
            )
        },
{
    app.is_listening = now_listening;
    if now_listening {
        app.status = app.ready_status();
        app.set_flash("▶️ Resumed listening".to_string());
    } else {
        app.status = "⏸ Paused".to_string();
        app.set_flash("⏸ Paused listening".to_string());
    }
}

// ---------------------------------------------------------------------------
// The prompt for an audio source
// ---------------------------------------------------------------------------

/// What follows from a key while the user is asked for an audio source.
#[derive(Debug)]
pub enum PromptStep {
    /// Nothing has been chosen.
    Nothing,
    /// A source was chosen.
    Chosen(AudioSource),
    /// A path was entered, which has to be checked.
    CheckFile(String),
}

/// A step with its texts taken by their characters.
pub enum PromptStepView {
    Nothing,
    Chosen(SourceView),
    CheckFile(Seq<char>),
}

impl View for PromptStep {
    type V = PromptStepView;

    open spec fn view(&self) -> PromptStepView {
        match *self {
            PromptStep::Nothing => PromptStepView::Nothing,
            PromptStep::Chosen(source) => PromptStepView::Chosen(source@),
            PromptStep::CheckFile(path) => PromptStepView::CheckFile(path@),
        }
    }
}

/// The prompt after a key, and what follows from it.
pub open spec fn after_prompt_key(prompt: Option<PromptView>, key: KeyPress) -> (
    Option<PromptView>,
    PromptStepView,
) {
    match prompt {
        None => (None, PromptStepView::Nothing),
        Some(PromptView::Choice) => match key.code {
            KeyCode::Char('1') => (
                Some(PromptView::FilePath(Seq::empty())),
                PromptStepView::Nothing,
            ),
            KeyCode::Char('2') => (None, PromptStepView::Chosen(SourceView::Microphone)),
            KeyCode::Char('3') => (None, PromptStepView::Chosen(SourceView::SystemAudio)),
            KeyCode::Esc => (None, PromptStepView::Nothing),
            _ => (prompt, PromptStepView::Nothing),
        },
        Some(PromptView::FilePath(path)) => match key.code {
            KeyCode::Char(c) => if key.modifiers.control {
                (prompt, PromptStepView::Nothing)
            } else {
                (Some(PromptView::FilePath(path.push(c))), PromptStepView::Nothing)
            },
            KeyCode::Backspace => (
                Some(
                    PromptView::FilePath(
                        if path.len() > 0 {
                            path.drop_last()
                        } else {
                            path
                        },
                    ),
                ),
                PromptStepView::Nothing,
            ),
            KeyCode::Esc => (None, PromptStepView::Nothing),
            KeyCode::Enter => (prompt, PromptStepView::CheckFile(entered_path(path))),
            _ => (prompt, PromptStepView::Nothing),
        },
    }
}

/// A text without its last character.
fn without_last(s: &str) -> (r: String)
    ensures
        r@ == if s@.len() > 0 {
            s@.drop_last()
        } else {
            s@
        },
{
    let n: usize = s.unicode_len();
    if n == 0 {
        return s.to_string();
    }
    let head: &str = s.substring_char(0, n - 1);
    assert(head@ =~= s@.drop_last());
    head.to_string()
}

/// Handles a key while the user is asked for an audio source.
pub fn handle_source_prompt<F>(app: &mut App<F>, key: KeyPress) -> (r: PromptStep)
    ensures
        final(app)@ == (AppView {
            source_prompt: after_prompt_key(old(app)@.source_prompt, key).0,
            ..old(app)@
        }),
        r@ == after_prompt_key(old(app)@.source_prompt, key).1,
{
    let mut prompt: Option<SourcePrompt> = None;
    std::mem::swap(&mut prompt, &mut app.source_prompt);
    match prompt {
        None => PromptStep::Nothing,
        Some(SourcePrompt::Choice) => match key.code {
            KeyCode::Char('1') => {
                app.source_prompt = Some(SourcePrompt::FilePath(String::new()));
                PromptStep::Nothing
            },
            KeyCode::Char('2') => PromptStep::Chosen(AudioSource::Microphone),
            KeyCode::Char('3') => PromptStep::Chosen(AudioSource::SystemAudio),
            KeyCode::Esc => PromptStep::Nothing,
            _ => {
                app.source_prompt = Some(SourcePrompt::Choice);
                PromptStep::Nothing
            },
        },
        Some(SourcePrompt::FilePath(entered)) => {
            let mut path: String = entered;
            match key.code {
                KeyCode::Char(c) => {
                    if !key.modifiers.control {
                        path.push(c);
                    }
                    app.source_prompt = Some(SourcePrompt::FilePath(path));
                    PromptStep::Nothing
                },
                KeyCode::Backspace => {
                    app.source_prompt = Some(SourcePrompt::FilePath(without_last(path.as_str())));
                    PromptStep::Nothing
                },
                KeyCode::Esc => PromptStep::Nothing,
                KeyCode::Enter => {
                    let cleaned: String = clean_path(path.as_str());
                    app.source_prompt = Some(SourcePrompt::FilePath(path));
                    PromptStep::CheckFile(cleaned)
                },
                _ => {
                    app.source_prompt = Some(SourcePrompt::FilePath(path));
                    PromptStep::Nothing
                },
            }
        },
    }
}

/// What follows from a key.
#[derive(Debug)]
pub enum KeyOutcome {
    /// The key went to the prompt for an audio source.
    Prompt(PromptStep),
    /// The key was a shortcut.
    Shortcut(KeyAction),
}

/// Hands a key to the prompt where one is open, and else handles it as a shortcut.
pub fn route_key<F>(app: &mut App<F>, key: KeyPress, config: &Config, live: bool) -> (r: KeyOutcome)
    ensures
        old(app)@.source_prompt is Some ==> final(app)@ == (AppView {
            source_prompt: after_prompt_key(old(app)@.source_prompt, key).0,
            ..old(app)@
        }),
        old(app)@.source_prompt is Some ==> (r matches KeyOutcome::Prompt(step) && step@
            == after_prompt_key(old(app)@.source_prompt, key).1),
        old(app)@.source_prompt is None ==> (r matches KeyOutcome::Shortcut(action) && (exists|
            stamp: Seq<char>,
        |
            (key.is_control('s') ==> is_file_stamp(stamp)) && (final(app)@, action@)
                == #[trigger] after_key(
                old(app)@,
                key,
                stamp,
                final(app)@.flash_time(),
                config@,
                live,
            ))),
{
    match &app.source_prompt {
        Some(_) => KeyOutcome::Prompt(handle_source_prompt(app, key)),
        None => KeyOutcome::Shortcut(handle_key_event(app, key, config, live)),
    }
}

/// The state after the check of a file that was entered.
pub open spec fn after_file_check<F>(
    app: AppView<F>,
    result: Result<SourceView, AudioErrorView>,
    now: Instant,
) -> AppView<F> {
    match result {
        Ok(_) => AppView { source_prompt: None, ..app },
        Err(e) => app.flashing("Audio file error: "@ + e.words(), now),
    }
}

/// Goes on when a file that was entered has been checked: closes the prompt, or says what is
/// wrong and leaves it open.
pub fn file_checked<F>(app: &mut App<F>, result: Result<AudioSource, AudioError>) -> (r: Option<
    AudioSource,
>)
    ensures
        final(app)@ == after_file_check(
            old(app)@,
            check_view(result),
            final(app)@.flash_time(),
        ),
        r == match result {
            Ok(source) => Some(source),
            Err(_) => None,
        },
{
    match result {
        Ok(source) => {
            app.source_prompt = None;
            Some(source)
        },
        Err(e) => {
            app.set_flash(concat("Audio file error: ", e.message().as_str()));
            None
        },
    }
}

/// Checks the file that was entered, given whether it exists, and goes on accordingly.
pub fn choose_file<F>(app: &mut App<F>, path: String, is_file: bool) -> (r: Option<AudioSource>)
    ensures
        exists|name: Option<Seq<char>>|
            {
                let checked = #[trigger] checked_file(path@, name, is_file);
                &&& may_be_named(path@, name)
                &&& final(app)@ == after_file_check(old(app)@, checked, final(app)@.flash_time())
                &&& r is Some == checked is Ok
                &&& r matches Some(source) ==> source@ == SourceView::File(path@)
            },
{
    let ghost p = path@;
    let result: Result<AudioSource, AudioError> = validate_audio_path(path, is_file);
    let ghost n = choose|name: Option<Seq<char>>|
        may_be_named(p, name) && check_view(result) == #[trigger] checked_file(p, name, is_file);
    let r: Option<AudioSource> = file_checked(app, result);
    assert(may_be_named(p, n) && app@ == after_file_check(
        old(app)@,
        checked_file(p, n, is_file),
        app@.flash_time(),
    ));
    r
}

/// The prompt after a text was pasted.
pub open spec fn after_paste(prompt: Option<PromptView>, text: Seq<char>) -> Option<PromptView> {
    match prompt {
        Some(PromptView::FilePath(path)) => Some(PromptView::FilePath(path + text)),
        other => other,
    }
}

/// Takes in pasted text: it goes to the path that is being entered, if one is.
pub fn paste<F>(app: &mut App<F>, text: &str)
    ensures
        final(app)@ == (AppView {
            source_prompt: after_paste(old(app)@.source_prompt, text@),
            ..old(app)@
        }),
        final(app)@ == (AppView {
            source_prompt: match old(app)@.source_prompt {
                Some(PromptView::FilePath(path)) => Some(PromptView::FilePath(path + text@)),
                other => other,
            },
            ..old(app)@
        }),
{
    let mut prompt: Option<SourcePrompt> = None;
    std::mem::swap(&mut prompt, &mut app.source_prompt);
    app.source_prompt = match prompt {
        Some(SourcePrompt::FilePath(entered)) => {
            let mut path: String = entered;
            path.append(text);
            Some(SourcePrompt::FilePath(path))
        },
        other => other,
    };
}

// ---------------------------------------------------------------------------
// Laws
// ---------------------------------------------------------------------------

/// Keys keep the application state well formed.
pub proof fn law_keys_keep_well_formed<F>(
    app: AppView<F>,
    key: KeyPress,
    stamp: Seq<char>,
    now: Instant,
    config: ConfigView,
    live: bool,
)
    requires
        app.well_formed(),
    ensures
        after_key(app, key, stamp, now, config, live).0.well_formed(),
{
    let nothing = crate::events::ActionView::Conversation { response: Seq::empty() };
    crate::history::law_well_formed_is_kept(app.document, nothing);
}

/// Whether a key is bound to something other than quitting.
pub open spec fn is_shortcut(key: KeyPress) -> bool {
    ||| key.is_control('s') || key.is_control('y') || key.is_control('e')
    ||| key.is_control('z') || key.is_control('r')
    ||| key.is_plain(KeyCode::Char(' ')) || key.is_plain(KeyCode::Char('m'))
    ||| key.is_plain(KeyCode::Char('a'))
    ||| key.is_plain(KeyCode::Tab) || key.is_plain(KeyCode::Up) || key.is_plain(KeyCode::Down)
}

/// A plain `q` or Escape quits, and no other key does.  These keys, and those that are bound to
/// nothing, leave the whole state alone, down to the time of the flash message; and so do saving,
/// and copying or typing out a document that is not empty.
pub proof fn law_other_keys_change_nothing<F>(
    app: AppView<F>,
    key: KeyPress,
    stamp: Seq<char>,
    now: Instant,
    config: ConfigView,
    live: bool,
)
    ensures
        ({
            let (after, action) = after_key(app, key, stamp, now, config, live);
            &&& action is Quit == (key.is_plain(KeyCode::Char('q')) || key.is_plain(KeyCode::Esc))
            &&& action is Quit ==> after == app
            &&& !(action is Quit) && !is_shortcut(key) ==> after == app && action is Continue
            &&& action is Save || action is Copy || action is TypeOut ==> after == app
        }),
{
}

/// Only undo and redo change the text of the document, and they do what the document's own
/// undo and redo do.
pub proof fn law_keys_do_not_type<F>(
    app: AppView<F>,
    key: KeyPress,
    stamp: Seq<char>,
    now: Instant,
    config: ConfigView,
    live: bool,
)
    ensures
        ({
            let after = after_key(app, key, stamp, now, config, live).0.document;
            if key.is_control('z') {
                after == app.document.undone()
            } else if key.is_control('r') {
                after == app.document.redone()
            } else {
                after.paragraphs == app.document.paragraphs
            }
        }),
{
}

/// The redo key takes back the undo key.
pub proof fn law_redo_key_reverses_undo_key<F>(
    app: AppView<F>,
    undo: KeyPress,
    redo: KeyPress,
    stamp: Seq<char>,
    now: Instant,
    config: ConfigView,
    live: bool,
)
    requires
        undo.is_control('z'),
        redo.is_control('r'),
        app.document.undo.len() > 0,
    ensures
        after_key(
            after_key(app, undo, stamp, now, config, live).0,
            redo,
            stamp,
            now,
            config,
            live,
        ).0.document == app.document,
{
    crate::history::law_redo_reverses_undo(app.document);
}

/// An empty document is neither copied nor typed out.
pub proof fn law_nothing_is_exported_from_an_empty_document<F>(
    app: AppView<F>,
    key: KeyPress,
    stamp: Seq<char>,
    now: Instant,
    config: ConfigView,
    live: bool,
)
    ensures
        ({
            let action = after_key(app, key, stamp, now, config, live).1;
            (action is Copy || action is TypeOut) ==> !app.document.is_empty()
        }),
{
    crate::history::law_empty_documents(app.document);
}

/// Toggling the output source twice changes nothing but the message.
pub proof fn law_toggling_the_output_source<F>(
    app: AppView<F>,
    key: KeyPress,
    stamp: Seq<char>,
    now: Instant,
    config: ConfigView,
    live: bool,
)
    requires
        key.is_plain(KeyCode::Char('m')),
    ensures
        ({
            let once = after_key(app, key, stamp, now, config, live).0;
            let twice = after_key(once, key, stamp, now, config, live).0;
            twice == (AppView { flash: twice.flash, ..app })
        }),
{
}

/// Without a prompt the keys are not taken by it, and the prompt is closed whenever a source is
/// chosen from the menu.
pub proof fn law_the_prompt_closes(prompt: Option<PromptView>, key: KeyPress)
    ensures
        prompt is None ==> after_prompt_key(prompt, key) == (
            None::<PromptView>,
            PromptStepView::Nothing,
        ),
        after_prompt_key(prompt, key).1 is Chosen ==> after_prompt_key(prompt, key).0 is None,
        key.code == KeyCode::Esc ==> after_prompt_key(prompt, key) == (
            None::<PromptView>,
            PromptStepView::Nothing,
        ),
{
}

/// What the keys do that hand the document on: saving writes the whole text under the time and the
/// extension of the format, copying and typing out take the whole text, and say so where there is
/// none.
pub proof fn law_keys_that_hand_the_document_on<F>(
    app: AppView<F>,
    key: KeyPress,
    stamp: Seq<char>,
    now: Instant,
    config: ConfigView,
    live: bool,
)
    requires
        key.modifiers.control && !key.modifiers.other,
    ensures
        ({
            let (after, action) = after_key(app, key, stamp, now, config, live);
            &&& key.code == KeyCode::Char('s') ==> after == app && action == (KeyActionView::Save {
                filename: "typist_"@ + stamp + "."@ + app.document.format.extension(),
                content: app.document.rendered(),
            })
            &&& key.code == KeyCode::Char('y') && !app.document.is_empty() ==> after == app && action
                == (KeyActionView::Copy { text: app.document.rendered() })
            &&& key.code == KeyCode::Char('e') && !app.document.is_empty() ==> after == app && action
                == (KeyActionView::TypeOut { text: app.document.rendered() })
            &&& key.code == KeyCode::Char('y') && app.document.is_empty() ==> after == app.flashing(
                "📋 Document is empty"@,
                now,
            ) && action == KeyActionView::Continue
            &&& key.code == KeyCode::Char('e') && app.document.is_empty() ==> after == app.flashing(
                "Document is empty"@,
                now,
            ) && action == KeyActionView::Continue
        }),
{
    crate::history::law_empty_documents(app.document);
}

/// What the undo and redo keys do: they take the step in the history where there is one, say so, and
/// have the whole text written to the output file; and say so where there is none.
pub proof fn law_undo_and_redo_keys<F>(
    app: AppView<F>,
    key: KeyPress,
    stamp: Seq<char>,
    now: Instant,
    config: ConfigView,
    live: bool,
)
    requires
        key.modifiers.control && !key.modifiers.other,
    ensures
        ({
            let (after, action) = after_key(app, key, stamp, now, config, live);
            let steps = if key.code == KeyCode::Char('z') {
                app.document.undo
            } else {
                app.document.redo
            };
            let moves = key.code == KeyCode::Char('z') || key.code == KeyCode::Char('r');
            &&& moves ==> after == (AppView { document: after.document, flash: after.flash, ..app })
            &&& moves && steps.len() == 0 ==> after.document == app.document && action
                == KeyActionView::Continue
            &&& moves && steps.len() > 0 ==> after.document.paragraphs == steps.last()
            &&& moves && steps.len() > 0 && config.output_file is None ==> action
                == KeyActionView::Continue
            &&& moves && steps.len() > 0 ==> (config.output_file matches Some(path) ==> action
                == (KeyActionView::WriteOutput { path, content: after.document.rendered() }))
            &&& key.code == KeyCode::Char('z') ==> after.flash == Some(
                (
                    if steps.len() > 0 {
                        "↩️ Undo"@
                    } else {
                        "Nothing to undo"@
                    },
                    now,
                ),
            )
            &&& key.code == KeyCode::Char('r') ==> after.flash == Some(
                (
                    if steps.len() > 0 {
                        "↪️ Redo"@
                    } else {
                        "Nothing to redo"@
                    },
                    now,
                ),
            )
        }),
{
}

/// What the keys without a modifier do: the space bar pauses and resumes where there is live audio,
/// the tab key changes the format, `m` the output source, `a` asks for another audio source, and
/// the arrows scroll by one line, as far as there is room.
pub proof fn law_plain_keys<F>(
    app: AppView<F>,
    key: KeyPress,
    stamp: Seq<char>,
    now: Instant,
    config: ConfigView,
    live: bool,
)
    requires
        !key.modifiers.control && !key.modifiers.other,
    ensures
        ({
            let (after, action) = after_key(app, key, stamp, now, config, live);
            let format = app.document.format_toggled().format;
            &&& key.code == KeyCode::Char('q') || key.code == KeyCode::Esc ==> after == app && action
                == KeyActionView::Quit
            &&& key.code == KeyCode::Char(' ') && live ==> after == app && action
                == KeyActionView::ToggleListening
            &&& key.code == KeyCode::Char(' ') && !live ==> action == KeyActionView::Continue
                && after == app.flashing("Pause is only available for live audio"@, now)
            &&& key.code == KeyCode::Tab ==> action == KeyActionView::Continue && after.document
                == app.document.format_toggled() && after.flash == Some(
                ("📝 Format: "@ + format.name(), now),
            ) && after == (AppView { document: after.document, flash: after.flash, ..app })
            &&& key.code == KeyCode::Char('m') ==> action == KeyActionView::Continue
                && after.output_source != app.output_source && after.flash == Some(
                ("Output: "@ + after.output_source.name(), now),
            ) && after == (AppView {
                output_source: after.output_source,
                flash: after.flash,
                ..app
            })
            &&& key.code == KeyCode::Char('a') ==> action == KeyActionView::Continue && after
                == (AppView { source_prompt: Some(PromptView::Choice), ..app })
            &&& key.code == KeyCode::Up ==> action == KeyActionView::Continue && after == (AppView {
                doc_scroll: after.doc_scroll,
                ..app
            }) && after.doc_scroll == (if app.doc_scroll == 0 {
                0
            } else {
                app.doc_scroll - 1
            })
            &&& key.code == KeyCode::Down ==> action == KeyActionView::Continue && after
                == (AppView { doc_scroll: after.doc_scroll, ..app }) && after.doc_scroll == (
            if app.doc_scroll == 65535 {
                65535
            } else {
                app.doc_scroll + 1
            })
        }),
{
}

/// What the keys do while the user is asked for an audio source: the numbers choose from the menu,
/// a character is added to the path, the backspace key takes the last one away, the enter key has
/// the path checked as it was entered, Escape ends the prompt, and nothing else changes it.
pub proof fn law_keys_in_the_prompt(path: Seq<char>, key: KeyPress)
    ensures
        ({
            let choice = after_prompt_key(Some(PromptView::Choice), key);
            let entry = after_prompt_key(Some(PromptView::FilePath(path)), key);
            &&& key.code == KeyCode::Char('1') ==> choice == (
                Some(PromptView::FilePath(Seq::<char>::empty())),
                PromptStepView::Nothing,
            )
            &&& key.code == KeyCode::Char('2') ==> choice == (
                None::<PromptView>,
                PromptStepView::Chosen(SourceView::Microphone),
            )
            &&& key.code == KeyCode::Char('3') ==> choice == (
                None::<PromptView>,
                PromptStepView::Chosen(SourceView::SystemAudio),
            )
            &&& key.code != KeyCode::Char('1') && key.code != KeyCode::Char('2') && key.code
                != KeyCode::Char('3') && key.code != KeyCode::Esc ==> choice == (
                Some(PromptView::Choice),
                PromptStepView::Nothing,
            )
            &&& key.code == KeyCode::Esc ==> choice == (
                None::<PromptView>,
                PromptStepView::Nothing,
            ) && entry == choice
            &&& key.code matches KeyCode::Char(c) ==> entry == (
                Some(
                    PromptView::FilePath(
                        if key.modifiers.control {
                            path
                        } else {
                            path + seq![c]
                        },
                    ),
                ),
                PromptStepView::Nothing,
            )
            &&& key.code == KeyCode::Backspace ==> entry == (
                Some(
                    PromptView::FilePath(
                        path.take(
                            if path.len() == 0 {
                                0
                            } else {
                                path.len() - 1
                            },
                        ),
                    ),
                ),
                PromptStepView::Nothing,
            )
            &&& key.code == KeyCode::Enter ==> entry == (
                Some(PromptView::FilePath(path)),
                PromptStepView::CheckFile(entered_path(path)),
            )
            &&& key.code == KeyCode::Tab || key.code == KeyCode::Up || key.code == KeyCode::Down
                || key.code == KeyCode::Other ==> entry == (
                Some(PromptView::FilePath(path)),
                PromptStepView::Nothing,
            )
        }),
{
    if let KeyCode::Char(c) = key.code {
        assert(path.push(c) =~= path + seq![c]);
    }
    if path.len() == 0 {
        assert(path.take(0) =~= path);
    } else {
        assert(path.drop_last() =~= path.take(path.len() - 1));
    }
}

/// Pasting a text is typing its characters, one behind the other; and it goes nowhere where no path
/// is being entered.
pub proof fn law_pasting_is_typing(prompt: PromptView, text: Seq<char>, key: KeyPress)
    ensures
        after_paste(Some(prompt), Seq::empty()) == Some(prompt),
        after_paste(None, text) is None,
        after_paste(Some(PromptView::Choice), text) == Some(PromptView::Choice),
        (prompt is FilePath && !key.modifiers.control) ==> (key.code matches KeyCode::Char(c)
            ==> after_paste(Some(prompt), text.push(c)) == after_prompt_key(
            after_paste(Some(prompt), text),
            key,
        ).0),
{
    if let PromptView::FilePath(path) = prompt {
        assert(path + Seq::<char>::empty() =~= path);
        if let KeyCode::Char(c) = key.code {
            assert(path + text.push(c) =~= (path + text).push(c));
        }
    }
}

/// A file that was entered and passed the check ends the prompt; one that did not leaves it open,
/// with the reason as a message; and nothing else changes.
pub proof fn law_a_checked_file_ends_the_prompt<F>(
    app: AppView<F>,
    source: SourceView,
    error: AudioErrorView,
    now: Instant,
)
    ensures
        after_file_check(app, Ok(source), now) == (AppView { source_prompt: None, ..app }),
        after_file_check(app, Err(error), now) == (AppView {
            flash: Some(("Audio file error: "@ + error.words(), now)),
            ..app
        }),
{
}

/// Pausing and resuming are noted in the state, with a message, and change nothing else.
pub proof fn law_pausing_and_resuming<F>(app: AppView<F>, now_listening: bool, now: Instant)
    ensures
        ({
            let after = after_toggling(app, now_listening, now);
            &&& after.is_listening == now_listening
            &&& now_listening && app.continuous_audio ==> after.status == "Ready — Listening..."@
            &&& now_listening && !app.continuous_audio ==> after.status == "Ready"@
            &&& !now_listening ==> after.status == "⏸ Paused"@
            &&& after.flash == Some(
                (
                    if now_listening {
                        "▶️ Resumed listening"@
                    } else {
                        "⏸ Paused listening"@
                    },
                    now,
                ),
            )
            &&& after == (AppView {
                is_listening: after.is_listening,
                status: after.status,
                flash: after.flash,
                ..app
            })
        }),
{
}

/// What is said of saving and copying: where the document went, how many characters were copied, or
/// why it did not work.
pub proof fn law_what_is_said_of_saving_and_copying(text: Seq<char>, error: Seq<char>)
    ensures
        saved_words(text, Ok(())) == "✅ Saved to "@ + text,
        saved_words(text, Err(error)) == "❌ Save failed: "@ + error,
        copied_words(text, Ok(())) == "📋 Copied "@ + decimal(text.len())
            + " chars to clipboard"@,
        copied_words(text, Err(error)) == "❌ Clipboard error: "@ + error,
{
}

/// The keys that are bound to nothing leave the whole state alone: those with a modifier other than
/// control, those with control but for the five letters, and those without but for the seven keys.
pub proof fn law_keys_that_are_bound_to_nothing<F>(
    app: AppView<F>,
    key: KeyPress,
    stamp: Seq<char>,
    now: Instant,
    config: ConfigView,
    live: bool,
)
    ensures
        ({
            let unbound = if key.modifiers.other {
                true
            } else if key.modifiers.control {
                key.code != KeyCode::Char('s') && key.code != KeyCode::Char('y') && key.code
                    != KeyCode::Char('e') && key.code != KeyCode::Char('z') && key.code
                    != KeyCode::Char('r')
            } else {
                key.code != KeyCode::Char('q') && key.code != KeyCode::Esc && key.code
                    != KeyCode::Char(' ') && key.code != KeyCode::Tab && key.code
                    != KeyCode::Char('m') && key.code != KeyCode::Char('a') && key.code
                    != KeyCode::Up && key.code != KeyCode::Down
            };
            unbound ==> after_key(app, key, stamp, now, config, live) == (
                app,
                KeyActionView::Continue,
            )
        }),
{
}

/// A saved document is named by the time and the extension of its format.
pub proof fn law_the_names_of_saved_documents(stamp: Seq<char>, format: OutputFormat)
    ensures
        saved_name(stamp, format) == "typist_"@ + stamp + "."@ + format.extension(),
{
}

} // verus!
