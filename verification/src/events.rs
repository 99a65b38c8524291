//! The events that flow through the application and the actions that a classified utterance
//! asks for.
use crate::text::{same, text_view};
use vstd::prelude::*;

verus! {

/// All events flowing through the application.
///
/// `F` is the type of an audio sample and of an audio level.
#[derive(Debug, Clone)]
pub enum AppEvent<F> {
    /// Real-time audio RMS level for VU meter display.
    AudioLevelUpdate(F),
    /// Voice activity detected: the user started speaking.
    SpeechStarted,
    /// A complete speech segment is ready for transcription.
    /// Contains the samples and the sample rate they were captured at.
    SpeechSegmentReady { samples: Vec<F>, sample_rate: u32 },
    /// Transcription is in progress.
    Transcribing,
    /// Raw transcript received from the speech recogniser.
    TranscriptReady { text: String },
    /// Intent classification is in progress.
    ClassifyingIntent,
    /// The language model has classified the intent and returned an action.
    LlmResponse(LlmAction),
    /// Status message for display in the UI.
    StatusMessage(String),
    /// An error occurred in the pipeline.
    Error(String),
}

/// The classified intent of a user utterance.
#[derive(Debug, Clone)]
pub enum LlmAction {
    /// User is dictating content to be typed into the document.
    Dictate { text: String },
    /// User is giving an editing command, with an optional text (e.g. the heading text).
    Command { action: EditCommand, text: Option<String> },
    /// User is having a conversation (not dictating).
    Conversation { response: String },
}

/// Editing commands that can be applied to the document.
#[derive(Debug, Clone, Copy, PartialEq, Eq, Structural)]
pub enum EditCommand {
    /// Start a new paragraph.
    NewParagraph,
    /// Delete the last sentence from the current paragraph.
    DeleteLastSentence,
    /// Delete the last paragraph entirely.
    DeleteLastParagraph,
    /// Undo the last document change.
    Undo,
    /// Redo the last undone change.
    Redo,
    /// Clear the entire document.
    ClearAll,
    /// Insert a heading (text provided separately).
    InsertHeading,
    /// Insert a bullet point (text provided separately).
    InsertBullet,
}

/// An action with its texts taken by their characters.
pub enum ActionView {
    Dictate { text: Seq<char> },
    Command { action: EditCommand, text: Option<Seq<char>> },
    Conversation { response: Seq<char> },
}

impl View for LlmAction {
    type V = ActionView;

    open spec fn view(&self) -> ActionView {
        match *self {
            LlmAction::Dictate { text } => ActionView::Dictate { text: text@ },
            LlmAction::Command { action, text } => ActionView::Command {
                action,
                text: text_view(text),
            },
            LlmAction::Conversation { response } => ActionView::Conversation {
                response: response@,
            },
        }
    }
}

/// An event with its lists and texts taken by their contents.
pub enum EventView<F> {
    AudioLevelUpdate(F),
    SpeechStarted,
    SpeechSegmentReady { samples: Seq<F>, sample_rate: u32 },
    Transcribing,
    TranscriptReady { text: Seq<char> },
    ClassifyingIntent,
    LlmResponse(ActionView),
    StatusMessage(Seq<char>),
    Error(Seq<char>),
}

impl<F> View for AppEvent<F> {
    type V = EventView<F>;

    open spec fn view(&self) -> EventView<F> {
        match *self {
            AppEvent::AudioLevelUpdate(level) => EventView::AudioLevelUpdate(level),
            AppEvent::SpeechStarted => EventView::SpeechStarted,
            AppEvent::SpeechSegmentReady { samples, sample_rate } => EventView::SpeechSegmentReady {
                samples: samples@,
                sample_rate,
            },
            AppEvent::Transcribing => EventView::Transcribing,
            AppEvent::TranscriptReady { text } => EventView::TranscriptReady { text: text@ },
            AppEvent::ClassifyingIntent => EventView::ClassifyingIntent,
            AppEvent::LlmResponse(action) => EventView::LlmResponse(action@),
            AppEvent::StatusMessage(message) => EventView::StatusMessage(message@),
            AppEvent::Error(message) => EventView::Error(message@),
        }
    }
}

/// The events of a list, taken by their contents.
pub open spec fn event_views<F>(events: Seq<AppEvent<F>>) -> Seq<EventView<F>> {
    events.map_values(|e: AppEvent<F>| e@)
}

impl EditCommand {
    /// The name under which a command stands in the classifier's replies.
    pub open spec fn wire_name(self) -> Seq<char> {
        match self {
            EditCommand::NewParagraph => "new_paragraph"@,
            EditCommand::DeleteLastSentence => "delete_last_sentence"@,
            EditCommand::DeleteLastParagraph => "delete_last_paragraph"@,
            EditCommand::Undo => "undo"@,
            EditCommand::Redo => "redo"@,
            EditCommand::ClearAll => "clear_all"@,
            EditCommand::InsertHeading => "insert_heading"@,
            EditCommand::InsertBullet => "insert_bullet"@,
        }
    }

    /// The name under which the command stands in the classifier's replies.
    pub fn wire_text(&self) -> (r: &'static str)
        ensures
            r@ == self.wire_name(),
    {
        match self {
            EditCommand::NewParagraph => "new_paragraph",
            EditCommand::DeleteLastSentence => "delete_last_sentence",
            EditCommand::DeleteLastParagraph => "delete_last_paragraph",
            EditCommand::Undo => "undo",
            EditCommand::Redo => "redo",
            EditCommand::ClearAll => "clear_all",
            EditCommand::InsertHeading => "insert_heading",
            EditCommand::InsertBullet => "insert_bullet",
        }
    }

    /// What a command is for, in the words that the classifier is told.
    pub open spec fn purpose(self) -> Seq<char> {
        match self {
            EditCommand::NewParagraph => "Start a new paragraph"@,
            EditCommand::DeleteLastSentence => "Delete the last sentence"@,
            EditCommand::DeleteLastParagraph => "Delete the last paragraph"@,
            EditCommand::Undo => "Undo the last change"@,
            EditCommand::Redo => "Redo the last undone change"@,
            EditCommand::ClearAll => "Clear the entire document"@,
            EditCommand::InsertHeading => "Insert a heading (requires \"text\" field)"@,
            EditCommand::InsertBullet => "Insert a bullet point (requires \"text\" field)"@,
        }
    }

    /// What the command is for, in the words that the classifier is told.
    pub fn purpose_text(&self) -> (r: &'static str)
        ensures
            r@ == self.purpose(),
    {
        match self {
            EditCommand::NewParagraph => "Start a new paragraph",
            EditCommand::DeleteLastSentence => "Delete the last sentence",
            EditCommand::DeleteLastParagraph => "Delete the last paragraph",
            EditCommand::Undo => "Undo the last change",
            EditCommand::Redo => "Redo the last undone change",
            EditCommand::ClearAll => "Clear the entire document",
            EditCommand::InsertHeading => "Insert a heading (requires \"text\" field)",
            EditCommand::InsertBullet => "Insert a bullet point (requires \"text\" field)",
        }
    }

    /// All commands, in the order in which the classifier is told of them.
    pub open spec fn every() -> Seq<EditCommand> {
        seq![
            EditCommand::NewParagraph,
            EditCommand::DeleteLastSentence,
            EditCommand::DeleteLastParagraph,
            EditCommand::Undo,
            EditCommand::Redo,
            EditCommand::ClearAll,
            EditCommand::InsertHeading,
            EditCommand::InsertBullet,
        ]
    }

    /// Lists all commands.
    pub fn list() -> (r: Vec<EditCommand>)
        ensures
            r@ == EditCommand::every(),
    {
        let r: Vec<EditCommand> = vec![
            EditCommand::NewParagraph,
            EditCommand::DeleteLastSentence,
            EditCommand::DeleteLastParagraph,
            EditCommand::Undo,
            EditCommand::Redo,
            EditCommand::ClearAll,
            EditCommand::InsertHeading,
            EditCommand::InsertBullet,
        ];
        assert(r@ =~= EditCommand::every());
        r
    }

    /// The command that a name in a classifier's reply stands for.
    pub open spec fn named(name: Seq<char>) -> Option<EditCommand> {
        if name == EditCommand::NewParagraph.wire_name() {
            Some(EditCommand::NewParagraph)
        } else if name == EditCommand::DeleteLastSentence.wire_name() {
            Some(EditCommand::DeleteLastSentence)
        } else if name == EditCommand::DeleteLastParagraph.wire_name() {
            Some(EditCommand::DeleteLastParagraph)
        } else if name == EditCommand::Undo.wire_name() {
            Some(EditCommand::Undo)
        } else if name == EditCommand::Redo.wire_name() {
            Some(EditCommand::Redo)
        } else if name == EditCommand::ClearAll.wire_name() {
            Some(EditCommand::ClearAll)
        } else if name == EditCommand::InsertHeading.wire_name() {
            Some(EditCommand::InsertHeading)
        } else if name == EditCommand::InsertBullet.wire_name() {
            Some(EditCommand::InsertBullet)
        } else {
            None
        }
    }

    /// Finds the command that a name in a classifier's reply stands for.
    pub fn from_wire_name(name: &str) -> (r: Option<EditCommand>)
        ensures
            r == EditCommand::named(name@),
    {
        if same(name, "new_paragraph") {
            Some(EditCommand::NewParagraph)
        } else if same(name, "delete_last_sentence") {
            Some(EditCommand::DeleteLastSentence)
        } else if same(name, "delete_last_paragraph") {
            Some(EditCommand::DeleteLastParagraph)
        } else if same(name, "undo") {
            Some(EditCommand::Undo)
        } else if same(name, "redo") {
            Some(EditCommand::Redo)
        } else if same(name, "clear_all") {
            Some(EditCommand::ClearAll)
        } else if same(name, "insert_heading") {
            Some(EditCommand::InsertHeading)
        } else if same(name, "insert_bullet") {
            Some(EditCommand::InsertBullet)
        } else {
            None
        }
    }

    /// The name of a command in the transcript log.
    pub open spec fn label(self) -> Seq<char> {
        match self {
            EditCommand::NewParagraph => "NewParagraph"@,
            EditCommand::DeleteLastSentence => "DeleteLastSentence"@,
            EditCommand::DeleteLastParagraph => "DeleteLastParagraph"@,
            EditCommand::Undo => "Undo"@,
            EditCommand::Redo => "Redo"@,
            EditCommand::ClearAll => "ClearAll"@,
            EditCommand::InsertHeading => "InsertHeading"@,
            EditCommand::InsertBullet => "InsertBullet"@,
        }
    }

    /// The name of the command in the transcript log.
    pub fn log_label(&self) -> (r: &'static str)
        ensures
            r@ == self.label(),
    {
        match self {
            EditCommand::NewParagraph => "NewParagraph",
            EditCommand::DeleteLastSentence => "DeleteLastSentence",
            EditCommand::DeleteLastParagraph => "DeleteLastParagraph",
            EditCommand::Undo => "Undo",
            EditCommand::Redo => "Redo",
            EditCommand::ClearAll => "ClearAll",
            EditCommand::InsertHeading => "InsertHeading",
            EditCommand::InsertBullet => "InsertBullet",
        }
    }
}

/// The list of all commands leaves none out.
pub proof fn lemma_every_command(command: EditCommand)
    ensures
        exists|i: int|
            0 <= i < EditCommand::every().len() && #[trigger] EditCommand::every()[i] == command,
{
    let e = EditCommand::every();
    assert(e[0] == EditCommand::NewParagraph && e[1] == EditCommand::DeleteLastSentence && e[2]
        == EditCommand::DeleteLastParagraph && e[3] == EditCommand::Undo && e[4]
        == EditCommand::Redo && e[5] == EditCommand::ClearAll && e[6] == EditCommand::InsertHeading
        && e[7] == EditCommand::InsertBullet);
}

/// Every command is found under its own name, so no two commands share one.
pub proof fn law_command_names_are_distinct(command: EditCommand)
    ensures
        EditCommand::named(command.wire_name()) == Some(command),
{
    reveal_strlit("new_paragraph");
    reveal_strlit("delete_last_sentence");
    reveal_strlit("delete_last_paragraph");
    reveal_strlit("undo");
    reveal_strlit("redo");
    reveal_strlit("clear_all");
    reveal_strlit("insert_heading");
    reveal_strlit("insert_bullet");
    assert("undo"@[0] != "redo"@[0]);
    assert("delete_last_sentence"@.len() != "delete_last_paragraph"@.len());
    assert("insert_heading"@.len() != "insert_bullet"@.len());
    assert("new_paragraph"@[0] != "insert_bullet"@[0]);
}

/// The names of the commands in the classifier's replies; no other name stands for a command.
pub proof fn law_the_names_of_commands(name: Seq<char>)
    ensures
        (EditCommand::named(name) == Some(EditCommand::NewParagraph)) == (name
            == "new_paragraph"@),
        (EditCommand::named(name) == Some(EditCommand::DeleteLastSentence)) == (name
            == "delete_last_sentence"@),
        (EditCommand::named(name) == Some(EditCommand::DeleteLastParagraph)) == (name
            == "delete_last_paragraph"@),
        (EditCommand::named(name) == Some(EditCommand::Undo)) == (name == "undo"@),
        (EditCommand::named(name) == Some(EditCommand::Redo)) == (name == "redo"@),
        (EditCommand::named(name) == Some(EditCommand::ClearAll)) == (name == "clear_all"@),
        (EditCommand::named(name) == Some(EditCommand::InsertHeading)) == (name
            == "insert_heading"@),
        (EditCommand::named(name) == Some(EditCommand::InsertBullet)) == (name
            == "insert_bullet"@),
        EditCommand::NewParagraph.wire_name() == "new_paragraph"@,
        EditCommand::DeleteLastSentence.wire_name() == "delete_last_sentence"@,
        EditCommand::DeleteLastParagraph.wire_name() == "delete_last_paragraph"@,
        EditCommand::Undo.wire_name() == "undo"@,
        EditCommand::Redo.wire_name() == "redo"@,
        EditCommand::ClearAll.wire_name() == "clear_all"@,
        EditCommand::InsertHeading.wire_name() == "insert_heading"@,
        EditCommand::InsertBullet.wire_name() == "insert_bullet"@,
{
    law_command_names_are_distinct(EditCommand::NewParagraph);
    law_command_names_are_distinct(EditCommand::DeleteLastSentence);
    law_command_names_are_distinct(EditCommand::DeleteLastParagraph);
    law_command_names_are_distinct(EditCommand::Undo);
    law_command_names_are_distinct(EditCommand::Redo);
    law_command_names_are_distinct(EditCommand::ClearAll);
    law_command_names_are_distinct(EditCommand::InsertHeading);
    law_command_names_are_distinct(EditCommand::InsertBullet);
}

/// The names of the commands in the transcript log.
pub proof fn law_the_labels_of_commands()
    ensures
        EditCommand::NewParagraph.label() == "NewParagraph"@,
        EditCommand::DeleteLastSentence.label() == "DeleteLastSentence"@,
        EditCommand::DeleteLastParagraph.label() == "DeleteLastParagraph"@,
        EditCommand::Undo.label() == "Undo"@,
        EditCommand::Redo.label() == "Redo"@,
        EditCommand::ClearAll.label() == "ClearAll"@,
        EditCommand::InsertHeading.label() == "InsertHeading"@,
        EditCommand::InsertBullet.label() == "InsertBullet"@,
{
}

} // verus!
