//! The document buffer, with its undo history.
use crate::config::OutputFormat;
use crate::events::{ActionView, EditCommand, LlmAction};
use crate::text::{
    chars_of, concat, concat3, copy_texts, count_words, decimal, decimal_string, find_last, joined,
    last_bytes, last_index_in, lemma_last_index_in, lemma_trim_end_is_prefix, tail_within, texts,
    trim_end, trim_end_of, uppered, words, CharClass,
};
use vstd::prelude::*;

verus! {

/// The number of earlier states that a new document keeps.
pub const MAX_HISTORY: usize = 100;

/// The number of bytes of recent text in a document summary.
pub const SUMMARY_BYTES: usize = 500;

/// A snapshot of the document state for undo/redo.
#[derive(Debug, Clone)]
struct Snapshot {
    paragraphs: Vec<String>,
}

/// The document buffer that accumulates typed text.
///
/// Maintains a list of paragraphs with full undo/redo support.
/// Can render as plain text or Markdown depending on the configured format.
#[derive(Debug)]
pub struct Document {
    /// The document content as a list of paragraphs.
    paragraphs: Vec<String>,
    /// Undo history (previous states).
    undo_stack: Vec<Snapshot>,
    /// Redo stack (states undone).
    redo_stack: Vec<Snapshot>,
    /// Output format (plain text or Markdown).
    pub format: OutputFormat,
    /// Maximum undo history size.
    max_history: usize,
}

/// The texts of a list of paragraphs.
pub type Paragraphs = Seq<Seq<char>>;

/// A document with its texts taken by their characters.  The last entry of `undo` is the most
/// recent earlier state; the last entry of `redo` is the state that was undone last.
#[verifier::ext_equal]
pub struct DocumentView {
    pub paragraphs: Paragraphs,
    pub undo: Seq<Paragraphs>,
    pub redo: Seq<Paragraphs>,
    pub format: OutputFormat,
    pub max_history: nat,
}

/// A paragraph with a text added: behind a space where the paragraph is not empty.
pub open spec fn extended(paragraph: Seq<char>, text: Seq<char>) -> Seq<char> {
    if paragraph.len() == 0 {
        text
    } else {
        paragraph.push(' ') + text
    }
}

/// A paragraph without its last sentence.  White space at the end and the character before it,
/// which may end the last sentence, are not looked at; of the rest, everything up to and
/// including the last character that ends a sentence is kept.
pub open spec fn without_last_sentence(paragraph: Seq<char>) -> Seq<char> {
    let t = trim_end_of(paragraph, CharClass::Whitespace);
    let searched = if t.len() > 0 {
        t.drop_last()
    } else {
        t
    };
    paragraph.take(last_index_in(searched, CharClass::SentenceEnd) + 1)
}

/// The paragraphs that are not empty.
pub open spec fn nonempty(paragraphs: Paragraphs) -> Paragraphs {
    paragraphs.filter(|p: Seq<char>| p.len() > 0)
}

/// A paragraph behind its number.
pub open spec fn numbered(number: nat, paragraph: Seq<char>) -> Seq<char> {
    decimal(number) + ". "@ + paragraph
}

/// The number of words of all paragraphs together.
pub open spec fn total_words(paragraphs: Paragraphs) -> nat
    decreases paragraphs.len(),
{
    if paragraphs.len() == 0 {
        0
    } else {
        total_words(paragraphs.drop_last()) + words(paragraphs.last())
    }
}

/// The number of characters of all paragraphs together.
pub open spec fn total_chars(paragraphs: Paragraphs) -> nat
    decreases paragraphs.len(),
{
    if paragraphs.len() == 0 {
        0
    } else {
        total_chars(paragraphs.drop_last()) + paragraphs.last().len()
    }
}

impl DocumentView {
    /// The invariant of documents: there is always a paragraph, now and in every state of the
    /// history, and the history never outgrows its limit.
    pub open spec fn well_formed(self) -> bool {
        &&& self.max_history == MAX_HISTORY
        &&& self.paragraphs.len() > 0
        &&& forall|i: int| 0 <= i < self.undo.len() ==> (#[trigger] self.undo[i]).len() > 0
        &&& forall|i: int| 0 <= i < self.redo.len() ==> (#[trigger] self.redo[i]).len() > 0
        &&& self.undo.len() + self.redo.len() <= self.max_history
    }

    /// An empty document.
    pub open spec fn empty(format: OutputFormat) -> DocumentView {
        DocumentView {
            paragraphs: seq![Seq::empty()],
            undo: Seq::empty(),
            redo: Seq::empty(),
            format,
            max_history: MAX_HISTORY as nat,
        }
    }

    /// The undo history with the current state added, and the oldest state dropped where there
    /// are too many.
    pub open spec fn remembered(self) -> Seq<Paragraphs> {
        let all = self.undo.push(self.paragraphs);
        if all.len() > self.max_history {
            all.skip(1)
        } else {
            all
        }
    }

    /// A change that can be undone: the current state goes to the history, and what had been
    /// undone is forgotten.
    pub open spec fn changed(self, paragraphs: Paragraphs) -> DocumentView {
        DocumentView { paragraphs, undo: self.remembered(), redo: Seq::empty(), ..self }
    }

    /// The paragraphs with the last one replaced.
    pub open spec fn with_last(self, paragraph: Seq<char>) -> Paragraphs {
        self.paragraphs.drop_last().push(paragraph)
    }

    /// Text appended to the last paragraph.
    pub open spec fn append_text(self, text: Seq<char>) -> DocumentView {
        if text.len() == 0 {
            self
        } else if self.paragraphs.len() == 0 {
            self.changed(seq![text])
        } else {
            self.changed(self.with_last(extended(self.paragraphs.last(), text)))
        }
    }

    /// A new paragraph started.
    pub open spec fn new_paragraph(self) -> DocumentView {
        self.changed(self.paragraphs.push(Seq::empty()))
    }

    /// The last sentence of the last paragraph deleted.
    pub open spec fn delete_last_sentence(self) -> DocumentView {
        if self.paragraphs.len() == 0 {
            self.changed(self.paragraphs)
        } else {
            self.changed(self.with_last(without_last_sentence(self.paragraphs.last())))
        }
    }

    /// The last paragraph deleted, or cleared where it is the only one.
    pub open spec fn delete_last_paragraph(self) -> DocumentView {
        if self.paragraphs.len() == 0 {
            self.changed(self.paragraphs)
        } else if self.paragraphs.len() == 1 {
            self.changed(seq![Seq::empty()])
        } else {
            self.changed(self.paragraphs.drop_last())
        }
    }

    /// A heading in the document's format.
    pub open spec fn heading(self, text: Seq<char>) -> Seq<char> {
        match self.format {
            OutputFormat::Markdown => "# "@ + text,
            OutputFormat::PlainText => uppered(text),
        }
    }

    /// A heading inserted as a paragraph of its own, with an empty paragraph behind it.
    pub open spec fn insert_heading(self, text: Seq<char>) -> DocumentView {
        self.changed(self.paragraphs.push(self.heading(text)).push(Seq::empty()))
    }

    /// A bullet point in the document's format.
    pub open spec fn bullet(self, text: Seq<char>) -> Seq<char> {
        match self.format {
            OutputFormat::Markdown => "- "@ + text,
            OutputFormat::PlainText => "• "@ + text,
        }
    }

    /// A bullet point inserted: in the last paragraph where it is empty, else behind it.
    pub open spec fn insert_bullet(self, text: Seq<char>) -> DocumentView {
        if self.paragraphs.len() == 0 {
            self.changed(self.paragraphs)
        } else if self.paragraphs.last().len() == 0 {
            self.changed(self.with_last(self.bullet(text)))
        } else {
            self.changed(self.paragraphs.push(self.bullet(text)))
        }
    }

    /// All text removed.
    pub open spec fn clear(self) -> DocumentView {
        self.changed(seq![Seq::empty()])
    }

    /// The last change undone, where there is one.
    pub open spec fn undone(self) -> DocumentView {
        if self.undo.len() == 0 {
            self
        } else {
            DocumentView {
                paragraphs: self.undo.last(),
                undo: self.undo.drop_last(),
                redo: self.redo.push(self.paragraphs),
                ..self
            }
        }
    }

    /// The change that was undone last made again, where there is one.
    pub open spec fn redone(self) -> DocumentView {
        if self.redo.len() == 0 {
            self
        } else {
            DocumentView {
                paragraphs: self.redo.last(),
                undo: self.undo.push(self.paragraphs),
                redo: self.redo.drop_last(),
                ..self
            }
        }
    }

    /// An editing command carried out.
    pub open spec fn command(self, command: EditCommand, text: Option<Seq<char>>) -> DocumentView {
        match command {
            EditCommand::NewParagraph => self.new_paragraph(),
            EditCommand::DeleteLastSentence => self.delete_last_sentence(),
            EditCommand::DeleteLastParagraph => self.delete_last_paragraph(),
            EditCommand::Undo => self.undone(),
            EditCommand::Redo => self.redone(),
            EditCommand::ClearAll => self.clear(),
            EditCommand::InsertHeading => match text {
                Some(t) => self.insert_heading(t),
                None => self,
            },
            EditCommand::InsertBullet => match text {
                Some(t) => self.insert_bullet(t),
                None => self,
            },
        }
    }

    /// A classified utterance applied to the document.
    pub open spec fn apply(self, action: ActionView) -> DocumentView {
        match action {
            ActionView::Dictate { text } => self.append_text(text),
            ActionView::Command { action, text } => self.command(action, text),
            ActionView::Conversation { .. } => self,
        }
    }

    /// The other output format chosen.
    pub open spec fn format_toggled(self) -> DocumentView {
        DocumentView {
            format: match self.format {
                OutputFormat::PlainText => OutputFormat::Markdown,
                OutputFormat::Markdown => OutputFormat::PlainText,
            },
            ..self
        }
    }

    /// The document as one text: the paragraphs that are not empty, with an empty line between
    /// two of them.
    pub open spec fn rendered(self) -> Seq<char> {
        joined(nonempty(self.paragraphs), "\n\n"@)
    }

    /// The lines of the document: its paragraphs behind their numbers.
    pub open spec fn lines(self) -> Seq<Seq<char>> {
        Seq::new(
            self.paragraphs.len(),
            |i: int| numbered((i + 1) as nat, self.paragraphs[i]),
        )
    }

    /// Whether the document holds no text.
    pub open spec fn is_empty(self) -> bool {
        forall|i: int|
            0 <= i < self.paragraphs.len() ==> (#[trigger] self.paragraphs[i]).len() == 0
    }

    /// The end of the document that a summary shows.
    pub open spec fn recent(self) -> Seq<char> {
        let r = self.rendered();
        let tail = tail_within(r, SUMMARY_BYTES as nat);
        if tail.len() < r.len() {
            "..."@ + tail
        } else {
            r
        }
    }

    /// A brief summary of the document.
    pub open spec fn summary(self) -> Seq<char> {
        if self.rendered().len() == 0 {
            "[Document is empty]"@
        } else {
            "[Document: "@ + decimal(nonempty(self.paragraphs).len()) + " paragraphs, "@ + decimal(
                total_words(self.paragraphs),
            ) + " words]\n--- Recent content ---\n"@ + self.recent()
        }
    }
}

/// The states of a history.
spec fn states(v: Seq<Snapshot>) -> Seq<Paragraphs> {
    v.map_values(|s: Snapshot| texts(s.paragraphs@))
}

impl View for Document {
    type V = DocumentView;

    closed spec fn view(&self) -> DocumentView {
        DocumentView {
            paragraphs: texts(self.paragraphs@),
            undo: states(self.undo_stack@),
            redo: states(self.redo_stack@),
            format: self.format,
            max_history: self.max_history as nat,
        }
    }
}

impl Document {
    /// Create a new empty document with the given output format.
    pub fn new(format: OutputFormat) -> (r: Document)
        ensures
            r@ == DocumentView::empty(format),
            r@.well_formed(),
    {
        let mut paragraphs: Vec<String> = Vec::new();
        paragraphs.push(String::new());
        let r: Document = Document {
            paragraphs,
            undo_stack: Vec::new(),
            redo_stack: Vec::new(),
            format,
            max_history: MAX_HISTORY,
        };
        assert(r@.paragraphs =~= seq![Seq::<char>::empty()]);
        r
    }

    /// The output format.
    pub fn output_format(&self) -> (r: OutputFormat)
        ensures
            r == self@.format,
    {
        self.format
    }

    /// Save the current state to the undo stack before making changes.
    fn save_snapshot(&mut self)
        ensures
            final(self)@ == old(self)@.changed(old(self)@.paragraphs),
    {
        self.undo_stack.push(Snapshot { paragraphs: copy_texts(&self.paragraphs) });
        assert(states(self.undo_stack@) =~= old(self)@.undo.push(old(self)@.paragraphs));
        if self.undo_stack.len() > self.max_history {
            let ghost all = self.undo_stack@;
            self.undo_stack.remove(0);
            assert(states(self.undo_stack@) =~= states(all).skip(1));
        }
        self.redo_stack.clear();
        assert(states(self.redo_stack@) =~= Seq::<Paragraphs>::empty());
    }

    /// Apply a classified utterance to the document.
    pub fn apply_action(&mut self, action: &LlmAction)
        ensures
            final(self)@ == old(self)@.apply(action@),
    {
        match action {
            LlmAction::Dictate { text } => {
                self.append_text(text.as_str());
            },
            LlmAction::Command { action: cmd, text: param } => match cmd {
                EditCommand::NewParagraph => self.new_paragraph(),
                EditCommand::DeleteLastSentence => self.delete_last_sentence(),
                EditCommand::DeleteLastParagraph => self.delete_last_paragraph(),
                EditCommand::Undo => {
                    self.undo();
                },
                EditCommand::Redo => {
                    self.redo();
                },
                EditCommand::ClearAll => self.clear(),
                EditCommand::InsertHeading => {
                    if let Some(heading_text) = param {
                        self.insert_heading(heading_text.as_str());
                    }
                },
                EditCommand::InsertBullet => {
                    if let Some(bullet_text) = param {
                        self.insert_bullet(bullet_text.as_str());
                    }
                },
            },
            LlmAction::Conversation { .. } => {
                // Conversations don't modify the document
            },
        }
    }

    /// Append text to the current (last) paragraph.
    pub fn append_text(&mut self, text: &str)
        ensures
            final(self)@ == old(self)@.append_text(text@),
    {
        if text.is_empty() {
            return;
        }
        self.save_snapshot();
        match self.paragraphs.pop() {
            Some(last) => {
                let mut paragraph: String = last;
                if !paragraph.as_str().is_empty() {
                    paragraph.push(' ');
                }
                paragraph.append(text);
                assert(paragraph@ =~= extended(old(self)@.paragraphs.last(), text@));
                self.paragraphs.push(paragraph);
            },
            None => {
                self.paragraphs.push(text.to_string());
            },
        }
        assert(self@.paragraphs =~= old(self)@.append_text(text@).paragraphs);
    }

    /// Start a new paragraph.
    pub fn new_paragraph(&mut self)
        ensures
            final(self)@ == old(self)@.new_paragraph(),
    {
        self.save_snapshot();
        self.paragraphs.push(String::new());
        assert(self@.paragraphs =~= old(self)@.new_paragraph().paragraphs);
    }

    /// Delete the last sentence from the current paragraph.
    pub fn delete_last_sentence(&mut self)
        ensures
            final(self)@ == old(self)@.delete_last_sentence(),
    {
        self.save_snapshot();
        if let Some(last) = self.paragraphs.pop() {
            let kept: String = cut_last_sentence(last.as_str());
            self.paragraphs.push(kept);
        }
        assert(self@.paragraphs =~= old(self)@.delete_last_sentence().paragraphs);
    }

    /// Delete the last paragraph.
    pub fn delete_last_paragraph(&mut self)
        ensures
            final(self)@ == old(self)@.delete_last_paragraph(),
    {
        self.save_snapshot();
        if let Some(_) = self.paragraphs.pop() {
            if self.paragraphs.len() == 0 {
                // Don't delete the only paragraph, just clear it
                self.paragraphs.push(String::new());
            }
        }
        assert(self@.paragraphs =~= old(self)@.delete_last_paragraph().paragraphs);
    }

    /// Insert a heading. In Markdown mode, prefixes with `# `.
    pub fn insert_heading(&mut self, text: &str)
        ensures
            final(self)@ == old(self)@.insert_heading(text@),
    {
        self.save_snapshot();
        let heading: String = match self.format {
            OutputFormat::Markdown => concat("# ", text),
            OutputFormat::PlainText => text.to_uppercase(),
        };
        self.paragraphs.push(heading);
        self.paragraphs.push(String::new());
        assert(self@.paragraphs =~= old(self)@.insert_heading(text@).paragraphs);
    }

    /// Insert a bullet point. In Markdown mode, prefixes with `- `.
    pub fn insert_bullet(&mut self, text: &str)
        ensures
            final(self)@ == old(self)@.insert_bullet(text@),
    {
        self.save_snapshot();
        let bullet: String = match self.format {
            OutputFormat::Markdown => concat("- ", text),
            OutputFormat::PlainText => concat("• ", text),
        };
        if let Some(last) = self.paragraphs.pop() {
            if !last.as_str().is_empty() {
                self.paragraphs.push(last);
            }
            self.paragraphs.push(bullet);
        }
        assert(self@.paragraphs =~= old(self)@.insert_bullet(text@).paragraphs);
    }

    /// Undo the last change. Returns true if successful.
    pub fn undo(&mut self) -> (r: bool)
        ensures
            r == (old(self)@.undo.len() > 0),
            final(self)@ == old(self)@.undone(),
    {
        if let Some(snapshot) = self.undo_stack.pop() {
            self.redo_stack.push(Snapshot { paragraphs: copy_texts(&self.paragraphs) });
            self.paragraphs = snapshot.paragraphs;
            assert(self@.undo =~= old(self)@.undone().undo);
            assert(self@.redo =~= old(self)@.undone().redo);
            true
        } else {
            false
        }
    }

    /// Redo the last undone change. Returns true if successful.
    pub fn redo(&mut self) -> (r: bool)
        ensures
            r == (old(self)@.redo.len() > 0),
            final(self)@ == old(self)@.redone(),
    {
        if let Some(snapshot) = self.redo_stack.pop() {
            self.undo_stack.push(Snapshot { paragraphs: copy_texts(&self.paragraphs) });
            self.paragraphs = snapshot.paragraphs;
            assert(self@.undo =~= old(self)@.redone().undo);
            assert(self@.redo =~= old(self)@.redone().redo);
            true
        } else {
            false
        }
    }

    /// Clear the entire document.
    pub fn clear(&mut self)
        ensures
            final(self)@ == old(self)@.clear(),
    {
        self.save_snapshot();
        let mut paragraphs: Vec<String> = Vec::new();
        paragraphs.push(String::new());
        self.paragraphs = paragraphs;
        assert(self@.paragraphs =~= old(self)@.clear().paragraphs);
    }

    /// Render the document as a single string.
    pub fn render(&self) -> (r: String)
        ensures
            r@ == self@.rendered(),
    {
        let mut r: String = String::new();
        let mut any: bool = false;
        let mut i: usize = 0;
        let ghost all = self@.paragraphs;
        proof {
            reveal(Seq::filter);
        }
        assert(nonempty(all.take(0)) =~= Seq::<Seq<char>>::empty());
        while i < self.paragraphs.len()
            invariant
                all == texts(self.paragraphs@),
                i <= self.paragraphs@.len(),
                r@ == joined(nonempty(all.take(i as int)), "\n\n"@),
                any == (nonempty(all.take(i as int)).len() > 0),
            decreases self.paragraphs@.len() - i,
        {
            let ghost part = all[i as int];
            proof {
                reveal(Seq::filter);
                assert(all.take(i + 1).drop_last() =~= all.take(i as int));
                assert(all.take(i + 1).last() == part);
                if part.len() > 0 {
                    let so_far = nonempty(all.take(i as int));
                    assert(nonempty(all.take(i + 1)) == so_far.push(part));
                    assert(so_far.push(part).drop_last() =~= so_far);
                }
            }
            if !self.paragraphs[i].as_str().is_empty() {
                if any {
                    r.append("\n\n");
                }
                r.append(self.paragraphs[i].as_str());
                any = true;
                assert(r@ =~= joined(nonempty(all.take(i + 1)), "\n\n"@));
            }
            i = i + 1;
        }
        assert(all.take(i as int) =~= all);
        r
    }

    /// Render with paragraph numbers for display: one line for each paragraph, the empty ones
    /// included, and not wrapped.
    pub fn render_lines(&self) -> (r: Vec<String>)
        ensures
            texts(r@) == self@.lines(),
            r@.len() == self@.paragraphs.len(),
            forall|i: int|
                0 <= i < r@.len() ==> (#[trigger] r@[i])@ == numbered(
                    (i + 1) as nat,
                    self@.paragraphs[i],
                ),
    {
        let mut lines: Vec<String> = Vec::new();
        let mut i: usize = 0;
        while i < self.paragraphs.len()
            invariant
                i <= self.paragraphs@.len(),
                lines@.len() == i,
                forall|j: int|
                    0 <= j < i ==> (#[trigger] lines@[j])@ == numbered(
                        (j + 1) as nat,
                        self@.paragraphs[j],
                    ),
            decreases self.paragraphs@.len() - i,
        {
            let number: String = decimal_string(i as u128 + 1);
            let line: String = concat3(number.as_str(), ". ", self.paragraphs[i].as_str());
            assert(self@.paragraphs[i as int] == self.paragraphs@[i as int]@);
            lines.push(line);
            i = i + 1;
        }
        assert(texts(lines@) =~= self@.lines());
        lines
    }

    /// The number of words, in a type that holds it for every document.
    pub fn word_total(&self) -> (r: u128)
        ensures
            r == total_words(self@.paragraphs),
    {
        let mut n: u128 = 0;
        let mut i: usize = 0;
        let ghost all = self@.paragraphs;
        while i < self.paragraphs.len()
            invariant
                all == texts(self.paragraphs@),
                i <= self.paragraphs@.len(),
                n == total_words(all.take(i as int)),
                n <= i * 0xffff_ffff_ffff_ffff,
            decreases self.paragraphs@.len() - i,
        {
            assert(all.take(i + 1).drop_last() =~= all.take(i as int));
            n = n + count_words(self.paragraphs[i].as_str()) as u128;
            i = i + 1;
        }
        assert(all.take(i as int) =~= all);
        n
    }

    /// The number of characters, in a type that holds it for every document.
    pub fn char_total(&self) -> (r: u128)
        ensures
            r == total_chars(self@.paragraphs),
    {
        let mut n: u128 = 0;
        let mut i: usize = 0;
        let ghost all = self@.paragraphs;
        while i < self.paragraphs.len()
            invariant
                all == texts(self.paragraphs@),
                i <= self.paragraphs@.len(),
                n == total_chars(all.take(i as int)),
                n <= i * 0xffff_ffff_ffff_ffff,
            decreases self.paragraphs@.len() - i,
        {
            assert(all.take(i + 1).drop_last() =~= all.take(i as int));
            n = n + self.paragraphs[i].as_str().unicode_len() as u128;
            i = i + 1;
        }
        assert(all.take(i as int) =~= all);
        n
    }

    /// Get the total word count.
    pub fn word_count(&self) -> (r: usize)
        requires
            total_words(self@.paragraphs) <= usize::MAX,
        ensures
            r == total_words(self@.paragraphs),
    {
        self.word_total() as usize
    }

    /// Get the total character count (excluding whitespace between paragraphs).
    pub fn char_count(&self) -> (r: usize)
        requires
            total_chars(self@.paragraphs) <= usize::MAX,
        ensures
            r == total_chars(self@.paragraphs),
    {
        self.char_total() as usize
    }

    /// Get the number of paragraphs (non-empty).
    pub fn paragraph_count(&self) -> (r: usize)
        ensures
            r == nonempty(self@.paragraphs).len(),
    {
        let mut n: usize = 0;
        let mut i: usize = 0;
        let ghost all = self@.paragraphs;
        proof {
            reveal(Seq::filter);
        }
        while i < self.paragraphs.len()
            invariant
                all == texts(self.paragraphs@),
                n <= i <= self.paragraphs@.len(),
                n == nonempty(all.take(i as int)).len(),
            decreases self.paragraphs@.len() - i,
        {
            proof {
                reveal(Seq::filter);
                assert(all.take(i + 1).drop_last() =~= all.take(i as int));
            }
            if !self.paragraphs[i].as_str().is_empty() {
                n = n + 1;
            }
            i = i + 1;
        }
        assert(all.take(i as int) =~= all);
        n
    }

    /// Check if the document is empty.
    pub fn is_empty(&self) -> (r: bool)
        ensures
            r == self@.is_empty(),
    {
        let mut i: usize = 0;
        while i < self.paragraphs.len()
            invariant
                i <= self.paragraphs@.len(),
                forall|j: int| 0 <= j < i ==> (#[trigger] self@.paragraphs[j]).len() == 0,
            decreases self.paragraphs@.len() - i,
        {
            if !self.paragraphs[i].as_str().is_empty() {
                assert(self@.paragraphs[i as int].len() > 0);
                return false;
            }
            i = i + 1;
        }
        true
    }

    /// Toggle the output format between plain text and Markdown.
    pub fn toggle_format(&mut self)
        ensures
            final(self)@ == old(self)@.format_toggled(),
    {
        self.format = match self.format {
            OutputFormat::PlainText => OutputFormat::Markdown,
            OutputFormat::Markdown => OutputFormat::PlainText,
        };
    }

    /// Get a brief summary of the document for the language model: the counts, and the last
    /// characters that fit in 500 bytes.
    pub fn context_summary(&self) -> (r: String)
        ensures
            r@ == self@.summary(),
    {
        let rendered: String = self.render();
        if rendered.as_str().is_empty() {
            return "[Document is empty]".to_string();
        }
        let tail: &str = last_bytes(rendered.as_str(), SUMMARY_BYTES);
        let recent: String = if tail.unicode_len() < rendered.as_str().unicode_len() {
            concat("...", tail)
        } else {
            rendered.clone()
        };
        let mut r: String = "[Document: ".to_string();
        r.append(decimal_string(self.paragraph_count() as u128).as_str());
        r.append(" paragraphs, ");
        r.append(decimal_string(self.word_total()).as_str());
        r.append(" words]\n--- Recent content ---\n");
        r.append(recent.as_str());
        r
    }
}

/// A paragraph without its last sentence.
fn cut_last_sentence(paragraph: &str) -> (r: String)
    ensures
        r@ == without_last_sentence(paragraph@),
{
    let v: Vec<char> = chars_of(paragraph);
    let t: &str = trim_end(paragraph, CharClass::Whitespace);
    let n: usize = t.unicode_len();
    proof {
        lemma_trim_end_is_prefix(paragraph@, CharClass::Whitespace);
    }
    let searched: usize = if n > 0 {
        n - 1
    } else {
        0
    };
    let ghost rest = if t@.len() > 0 {
        t@.drop_last()
    } else {
        t@
    };
    assert(v@.take(searched as int) =~= rest);
    let keep: usize = match find_last(&v, searched, CharClass::SentenceEnd) {
        Some(i) => {
            proof {
                lemma_last_index_in(rest, CharClass::SentenceEnd);
            }
            i + 1
        },
        None => 0,
    };
    let head: &str = paragraph.substring_char(0, keep);
    assert(head@ =~= paragraph@.take(keep as int));
    head.to_string()
}

} // verus!
