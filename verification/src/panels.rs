//! What the panels of the screen show.
use crate::document::{nonempty, total_chars, total_words, DocumentView};
use crate::text::{
    concat, concat3, decimal, decimal_string, same, truncate_str, truncated, words,
};
use crate::ui::{App, AppView, EntryView, TranscriptEntry};
use vstd::prelude::*;

verus! {

/// The number of log entries on the screen.
pub const LOG_LINES: usize = 20;

/// The number of characters of an utterance on the screen.
pub const RAW_TEXT_WIDTH: usize = 30;

/// The number of characters of what was made of an utterance on the screen.
pub const DETAIL_WIDTH: usize = 35;

/// The colours of texts on the screen.
#[derive(Debug, Clone, Copy, PartialEq, Eq, Structural)]
pub enum PanelColor {
    White,
    DarkGray,
    Green,
    Yellow,
    Blue,
    Red,
}

/// The document panel.
#[derive(Debug)]
pub struct DocumentPanel {
    pub title: String,
    pub text: String,
    pub color: PanelColor,
    pub scroll: u16,
}

/// The title of the document panel.
pub open spec fn document_title(d: DocumentView) -> Seq<char> {
    " 📄 Document ["@ + d.format.name() + "] — "@ + decimal(total_words(d.paragraphs)) + " words, "@
        + decimal(nonempty(d.paragraphs).len()) + " paragraphs "@
}

/// The text in the document panel: the document, or an invitation where it is empty, and behind
/// it the latest answer.
pub open spec fn document_text(d: DocumentView, answer: Option<Seq<char>>) -> Seq<char> {
    let text = if d.is_empty() {
        "Start speaking to begin typing...\n\nYour dictated text will appear here."@
    } else {
        d.rendered()
    };
    match answer {
        Some(response) => text + "\n\n💬 Agent: "@ + response,
        None => text,
    }
}

/// What the document panel shows.
pub fn document_panel<F>(app: &App<F>) -> (r: DocumentPanel)
    ensures
        r.title@ == document_title(app@.document),
        r.text@ == document_text(app@.document, app@.conversation_response),
        r.color == if app@.document.is_empty() {
            PanelColor::DarkGray
        } else {
            PanelColor::White
        },
        r.scroll == app@.doc_scroll,
{
    let mut title: String = concat3(
        " 📄 Document [",
        app.document.output_format().display_name(),
        "] — ",
    );
    title.append(decimal_string(app.document.word_total()).as_str());
    title.append(" words, ");
    title.append(decimal_string(app.document.paragraph_count() as u128).as_str());
    title.append(" paragraphs ");
    let empty: bool = app.document.is_empty();
    let mut text: String = if empty {
        "Start speaking to begin typing...\n\nYour dictated text will appear here.".to_string()
    } else {
        app.document.render()
    };
    if let Some(response) = &app.conversation_response {
        text.append("\n\n💬 Agent: ");
        text.append(response.as_str());
    }
    let color: PanelColor = if empty {
        PanelColor::DarkGray
    } else {
        PanelColor::White
    };
    DocumentPanel { title, text, color, scroll: app.doc_scroll }
}

/// A line of the transcript log: when, what it was taken for, what was heard, and what was made
/// of it.
#[derive(Debug)]
pub struct LogLine {
    pub timestamp: String,
    pub label: String,
    pub color: PanelColor,
    pub raw_text: String,
    pub detail: String,
}

/// A line with its texts taken by their characters.
#[verifier::ext_equal]
pub struct LogLineView {
    pub timestamp: Seq<char>,
    pub label: Seq<char>,
    pub color: PanelColor,
    pub raw_text: Seq<char>,
    pub detail: Seq<char>,
}

impl View for LogLine {
    type V = LogLineView;

    open spec fn view(&self) -> LogLineView {
        LogLineView {
            timestamp: self.timestamp@,
            label: self.label@,
            color: self.color,
            raw_text: self.raw_text@,
            detail: self.detail@,
        }
    }
}

/// The colour of an intent.
pub open spec fn intent_color(intent: Seq<char>) -> PanelColor {
    if intent == "dictate"@ {
        PanelColor::Green
    } else if intent == "command"@ {
        PanelColor::Yellow
    } else if intent == "chat"@ {
        PanelColor::Blue
    } else {
        PanelColor::DarkGray
    }
}

/// The line for a log entry.
pub open spec fn line_for(entry: EntryView) -> LogLineView {
    LogLineView {
        timestamp: "["@ + entry.timestamp + "] "@,
        label: "["@ + (if entry.intent.len() == 0 {
            "..."@
        } else {
            entry.intent
        }) + "] "@,
        color: intent_color(entry.intent),
        raw_text: truncated(entry.raw_text, RAW_TEXT_WIDTH as nat),
        detail: if entry.detail.len() == 0 {
            Seq::empty()
        } else {
            " → "@ + truncated(entry.detail, DETAIL_WIDTH as nat)
        },
    }
}

/// The lines of the transcript log: the latest entries, the oldest of them first.
pub open spec fn lines_for(log: Seq<EntryView>) -> Seq<LogLineView> {
    log.skip(
        if log.len() > LOG_LINES {
            log.len() - LOG_LINES
        } else {
            0
        },
    ).map_values(|e: EntryView| line_for(e))
}

/// The line for a log entry.
fn log_line(entry: &TranscriptEntry) -> (r: LogLine)
    ensures
        r@ == line_for(entry@),
{
    let intent: &str = entry.intent.as_str();
    let color: PanelColor = if same(intent, "dictate") {
        PanelColor::Green
    } else if same(intent, "command") {
        PanelColor::Yellow
    } else if same(intent, "chat") {
        PanelColor::Blue
    } else {
        PanelColor::DarkGray
    };
    let label: String = if intent.is_empty() {
        concat3("[", "...", "] ")
    } else {
        concat3("[", intent, "] ")
    };
    let detail: String = if entry.detail.as_str().is_empty() {
        String::new()
    } else {
        concat(" → ", truncate_str(entry.detail.as_str(), DETAIL_WIDTH).as_str())
    };
    LogLine {
        timestamp: concat3("[", entry.timestamp.as_str(), "] "),
        label,
        color,
        raw_text: truncate_str(entry.raw_text.as_str(), RAW_TEXT_WIDTH),
        detail,
    }
}

/// What the transcript log panel shows.
pub fn log_panel<F>(app: &App<F>) -> (r: Vec<LogLine>)
    ensures
        r@.map_values(|l: LogLine| l@) == lines_for(app@.transcript_log),
{
    let n: usize = app.transcript_log.len();
    let first: usize = if n > LOG_LINES {
        n - LOG_LINES
    } else {
        0
    };
    let ghost all = lines_for(app@.transcript_log);
    let mut r: Vec<LogLine> = Vec::new();
    let mut i: usize = first;
    while i < n
        invariant
            first <= i <= n == app.transcript_log@.len(),
            first == if n > LOG_LINES {
                n - LOG_LINES
            } else {
                0
            },
            all == lines_for(app@.transcript_log),
            all.len() == n - first,
            r@.map_values(|l: LogLine| l@) == all.take(i - first),
        decreases n - i,
    {
        let ghost before = r@;
        let line: LogLine = log_line(&app.transcript_log[i]);
        assert(app@.transcript_log[i as int] == app.transcript_log@[i as int]@);
        assert(line@ == all[i - first]);
        r.push(line);
        assert(r@.map_values(|l: LogLine| l@) =~= before.map_values(|l: LogLine| l@).push(line@));
        assert(all.take(i - first + 1) =~= all.take(i - first).push(line@));
        i = i + 1;
    }
    assert(all.take(n - first) =~= all);
    r
}

/// The status panel.
#[derive(Debug)]
pub struct StatusPanel {
    pub text: String,
    pub color: PanelColor,
    pub stats: String,
}

/// The sign for what the application is doing.
pub open spec fn status_icon(processing: bool, listening: bool) -> Seq<char> {
    if processing {
        "⏳"@
    } else if listening {
        "🎤"@
    } else {
        "⏸"@
    }
}

/// The colour for what the application is doing.
pub open spec fn status_color(processing: bool, listening: bool) -> PanelColor {
    if processing {
        PanelColor::Yellow
    } else if listening {
        PanelColor::Green
    } else {
        PanelColor::Red
    }
}

/// The status line: a flash message goes before the status.
pub open spec fn status_text<F>(app: AppView<F>) -> Seq<char> {
    status_icon(app.is_processing, app.is_listening) + " "@ + match app.flash {
        Some((message, _)) => message,
        None => app.status,
    }
}

/// The counts of words, characters and paragraphs.
pub open spec fn stats_text(d: DocumentView) -> Seq<char> {
    "Words: "@ + decimal(total_words(d.paragraphs)) + "\nChars: "@ + decimal(
        total_chars(d.paragraphs),
    ) + "\nParas: "@ + decimal(nonempty(d.paragraphs).len())
}

/// What the status panel shows.
pub fn status_panel<F>(app: &App<F>) -> (r: StatusPanel)
    ensures
        r.text@ == status_text(app@),
        r.color == status_color(app@.is_processing, app@.is_listening),
        r.stats@ == stats_text(app@.document),
{
    let icon: &str = if app.is_processing {
        "⏳"
    } else if app.is_listening {
        "🎤"
    } else {
        "⏸"
    };
    let color: PanelColor = if app.is_processing {
        PanelColor::Yellow
    } else if app.is_listening {
        PanelColor::Green
    } else {
        PanelColor::Red
    };
    let text: String = match &app.flash_message {
        Some((message, _)) => concat3(icon, " ", message.as_str()),
        None => concat3(icon, " ", app.status.as_str()),
    };
    let mut stats: String = concat3(
        "Words: ",
        decimal_string(app.document.word_total()).as_str(),
        "\nChars: ",
    );
    stats.append(decimal_string(app.document.char_total()).as_str());
    stats.append("\nParas: ");
    stats.append(decimal_string(app.document.paragraph_count() as u128).as_str());
    StatusPanel { text, color, stats }
}

/// The sign for the output format in the help bar.
pub fn format_indicator<F>(app: &App<F>) -> (r: String)
    ensures
        r@ == " ["@ + app@.document.format.name() + "] "@,
{
    concat3(" [", app.document.output_format().display_name(), "] ")
}

/// The log panel shows at most its number of lines, the last of them for the latest entry.
pub proof fn law_the_latest_entry_is_shown(log: Seq<EntryView>)
    ensures
        lines_for(log).len() <= LOG_LINES,
        log.len() > 0 ==> lines_for(log).len() > 0 && lines_for(log).last() == line_for(log.last()),
{
}

/// A text that was cut fits where it was cut for, and ends in dots.
pub proof fn law_cut_texts_fit(s: Seq<char>, max: nat)
    ensures
        truncated(s, max).len() <= max,
        s.len() <= max ==> truncated(s, max) == s,
        s.len() > max ==> truncated(s, max).len() == max,
        s.len() > max >= 3 ==> "..."@.is_suffix_of(truncated(s, max)),
{
    reveal_strlit("...");
    if s.len() > max >= 3 {
        let t = truncated(s, max);
        assert(t.subrange(t.len() - 3, t.len() as int) =~= "..."@);
    }
}

/// The log panel shows every entry, or the latest twenty where there are more, each on a line of
/// its own and in order.
pub proof fn law_the_lines_of_the_log(log: Seq<EntryView>)
    ensures
        log.len() <= 20 ==> lines_for(log).len() == log.len(),
        log.len() > 20 ==> lines_for(log).len() == 20,
        forall|i: int|
            0 <= i < lines_for(log).len() ==> #[trigger] lines_for(log)[i] == line_for(
                log[log.len() - lines_for(log).len() + i],
            ),
{
}

/// A line says when, what the utterance was taken for, what was heard, and what was made of it; the
/// last two are cut where there is no room.
pub proof fn law_what_a_line_says(entry: EntryView)
    ensures
        ({
            let line = line_for(entry);
            &&& line.timestamp == "["@ + entry.timestamp + "] "@
            &&& entry.intent.len() == 0 ==> line.label == "["@ + "..."@ + "] "@
            &&& entry.intent.len() > 0 ==> line.label == "["@ + entry.intent + "] "@
            &&& entry.raw_text.len() <= 30 ==> line.raw_text == entry.raw_text
            &&& entry.raw_text.len() > 30 ==> line.raw_text == entry.raw_text.take(27) + "..."@
            &&& entry.detail.len() == 0 ==> line.detail.len() == 0
            &&& 0 < entry.detail.len() <= 35 ==> line.detail == " → "@ + entry.detail
            &&& entry.detail.len() > 35 ==> line.detail == " → "@ + (entry.detail.take(32)
                + "..."@)
        }),
        (intent_color(entry.intent) == PanelColor::Green) == (entry.intent == "dictate"@),
        line_for(entry).color == intent_color(entry.intent),
        intent_color("command"@) == PanelColor::Yellow,
        intent_color("chat"@) == PanelColor::Blue,
        entry.intent != "dictate"@ && entry.intent != "command"@ && entry.intent != "chat"@
            ==> intent_color(entry.intent) == PanelColor::DarkGray,
{
    reveal_strlit("dictate");
    reveal_strlit("command");
    reveal_strlit("chat");
    assert("dictate"@[0] != "command"@[0]);
    assert("chat"@.len() != "command"@.len());
    assert("chat"@.len() != "dictate"@.len());
}

/// The document panel shows the whole text, or an invitation where there is none, and behind it the
/// latest answer; its title has the format, the words and the paragraphs.
pub proof fn law_what_the_document_panel_shows(d: DocumentView, answer: Seq<char>)
    ensures
        !d.is_empty() ==> document_text(d, None) == d.rendered(),
        d.is_empty() ==> document_text(d, None)
            == "Start speaking to begin typing...\n\nYour dictated text will appear here."@,
        document_text(d, Some(answer)) == document_text(d, None) + "\n\n💬 Agent: "@ + answer,
        document_title(d) == " 📄 Document ["@ + d.format.name() + "] — "@ + decimal(
            words(d.rendered()),
        ) + " words, "@ + decimal(nonempty(d.paragraphs).len()) + " paragraphs "@,
{
    crate::history::law_the_words_are_those_of_the_text(d);
}

/// The status panel shows what the application is doing, the message that is flashed or else the
/// status, and how many words, characters and paragraphs there are.
pub proof fn law_what_the_status_panel_shows<F>(app: AppView<F>)
    ensures
        app.is_processing ==> status_icon(app.is_processing, app.is_listening) == "⏳"@
            && status_color(app.is_processing, app.is_listening) == PanelColor::Yellow,
        !app.is_processing && app.is_listening ==> status_icon(app.is_processing, app.is_listening)
            == "🎤"@ && status_color(app.is_processing, app.is_listening) == PanelColor::Green,
        !app.is_processing && !app.is_listening ==> status_icon(app.is_processing, app.is_listening)
            == "⏸"@ && status_color(app.is_processing, app.is_listening) == PanelColor::Red,
        app.flash matches Some((message, _)) ==> status_text(app) == status_icon(
            app.is_processing,
            app.is_listening,
        ) + " "@ + message,
        app.flash is None ==> status_text(app) == status_icon(app.is_processing, app.is_listening)
            + " "@ + app.status,
        stats_text(app.document) == "Words: "@ + decimal(words(app.document.rendered()))
            + "\nChars: "@ + decimal(total_chars(app.document.paragraphs)) + "\nParas: "@ + decimal(
            nonempty(app.document.paragraphs).len(),
        ),
{
    crate::history::law_the_words_are_those_of_the_text(app.document);
}

} // verus!
