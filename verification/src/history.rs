//! What holds of the document and of its history, whatever is done to them.
use crate::config::OutputFormat;
use crate::document::{
    extended, nonempty, numbered, total_chars, total_words, without_last_sentence, DocumentView,
    Paragraphs, MAX_HISTORY, SUMMARY_BYTES,
};
use crate::events::{ActionView, EditCommand};
use crate::text::{
    byte_len, decimal, is_whitespace, joined, last_index_in, lemma_last_index_in,
    lemma_trim_end_is_prefix, tail_within, trim_end_of, uppered, words, CharClass,
};
use crate::text_laws::{
    law_the_longest_end_that_fits, law_trimming_the_end_is_exact, law_words_add_up,
};
use vstd::prelude::*;
use vstd::utf8::encode_utf8;

verus! {

impl ActionView {
    /// Whether the action goes back or forth in the history.
    pub open spec fn moves_in_history(self) -> bool {
        match self {
            ActionView::Command { action, .. } => action == EditCommand::Undo || action
                == EditCommand::Redo,
            _ => false,
        }
    }

    /// Whether the action makes a change that can be undone.
    pub open spec fn changes_document(self) -> bool {
        match self {
            ActionView::Dictate { text } => text.len() > 0,
            ActionView::Command { action, text } => match action {
                EditCommand::Undo => false,
                EditCommand::Redo => false,
                EditCommand::InsertHeading => text is Some,
                EditCommand::InsertBullet => text is Some,
                _ => true,
            },
            ActionView::Conversation { .. } => false,
        }
    }
}

/// Conversation never touches the document.
pub proof fn law_conversation_leaves_the_document(d: DocumentView, response: Seq<char>)
    ensures
        d.apply(ActionView::Conversation { response }) == d,
{
}

/// An action either makes a change that can be undone, or moves in the history, or leaves the
/// document as it was.
pub proof fn law_what_an_action_does(d: DocumentView, action: ActionView)
    ensures
        action.changes_document() ==> d.apply(action) == d.changed(d.apply(action).paragraphs),
        !action.changes_document() && !action.moves_in_history() ==> d.apply(action) == d,
{
}

/// Every action keeps the document well formed; so does toggling the format.
pub proof fn law_well_formed_is_kept(d: DocumentView, action: ActionView)
    requires
        d.well_formed(),
    ensures
        d.apply(action).well_formed(),
        d.undone().well_formed(),
        d.redone().well_formed(),
        d.format_toggled().well_formed(),
{
    assert(d.undone().well_formed()) by {
        if d.undo.len() > 0 {
            assert(d.undo[d.undo.len() - 1].len() > 0);
        }
    }
    assert(d.redone().well_formed()) by {
        if d.redo.len() > 0 {
            assert(d.redo[d.redo.len() - 1].len() > 0);
        }
    }
    if action.changes_document() {
        law_what_an_action_does(d, action);
        let e = d.apply(action);
        let all = d.undo.push(d.paragraphs);
        assert forall|i: int| 0 <= i < e.undo.len() implies (#[trigger] e.undo[i]).len() > 0 by {
            if all.len() > d.max_history {
                assert(e.undo[i] == all[i + 1]);
            }
        }
        assert(e.paragraphs.len() > 0);
    }
}

/// A change is undone by one undo, which finds it in the history.
pub proof fn law_undo_reverses_a_change(d: DocumentView, action: ActionView)
    requires
        d.well_formed(),
        action.changes_document(),
    ensures
        d.apply(action).undo.len() > 0,
        d.apply(action).undone().paragraphs == d.paragraphs,
        d.apply(action).undone().format == d.format,
{
    law_what_an_action_does(d, action);
}

/// A change forgets what had been undone before it.
pub proof fn law_a_change_forgets_what_was_undone(d: DocumentView, action: ActionView)
    requires
        action.changes_document(),
    ensures
        d.apply(action).redo.len() == 0,
{
}

/// Redo takes back an undo: text, history and all.
pub proof fn law_redo_reverses_undo(d: DocumentView)
    requires
        d.undo.len() > 0,
    ensures
        d.undone().redone() == d,
{
    assert(d.undo.drop_last().push(d.undo.last()) =~= d.undo);
    assert(d.redo.push(d.paragraphs).drop_last() =~= d.redo);
}

/// Undo takes back a redo: text, history and all.
pub proof fn law_undo_reverses_redo(d: DocumentView)
    requires
        d.redo.len() > 0,
    ensures
        d.redone().undone() == d,
{
    assert(d.redo.drop_last().push(d.redo.last()) =~= d.redo);
    assert(d.undo.push(d.paragraphs).drop_last() =~= d.undo);
}

/// A row of actions, applied one behind the other.
pub open spec fn apply_all(d: DocumentView, actions: Seq<ActionView>) -> DocumentView
    decreases actions.len(),
{
    if actions.len() == 0 {
        d
    } else {
        apply_all(d, actions.drop_last()).apply(actions.last())
    }
}

/// Undo, a number of times.
pub open spec fn undo_times(d: DocumentView, n: nat) -> DocumentView
    decreases n,
{
    if n == 0 {
        d
    } else {
        undo_times(d, (n - 1) as nat).undone()
    }
}

/// The smaller of two numbers.
pub open spec fn least(a: nat, b: nat) -> nat {
    if a <= b {
        a
    } else {
        b
    }
}

/// After a row of changes the history ends with the states before the latest of them.
proof fn lemma_history_of_changes(d: DocumentView, actions: Seq<ActionView>)
    requires
        d.undo.len() <= d.max_history,
        forall|i: int| 0 <= i < actions.len() ==> (#[trigger] actions[i]).changes_document(),
    ensures
        apply_all(d, actions).max_history == d.max_history,
        apply_all(d, actions).undo.len() == least(
            d.undo.len() + actions.len(),
            d.max_history,
        ),
        forall|j: int|
            0 <= j < actions.len() && actions.len() - j <= d.max_history ==> apply_all(
                d,
                actions,
            ).undo[apply_all(d, actions).undo.len() - actions.len() + j] == (#[trigger] apply_all(
                d,
                actions.take(j),
            )).paragraphs,
    decreases actions.len(),
{
    if actions.len() > 0 {
        let n = actions.len() as int;
        let before = actions.drop_last();
        assert(forall|i: int| 0 <= i < before.len() ==> before[i] == actions[i]);
        lemma_history_of_changes(d, before);
        let e = apply_all(d, before);
        let f = apply_all(d, actions);
        law_what_an_action_does(e, actions.last());
        assert(actions[n - 1].changes_document());
        assert(f.undo == e.remembered());
        assert forall|j: int| 0 <= j < n && n - j <= d.max_history implies f.undo[f.undo.len() - n
            + j] == (#[trigger] apply_all(d, actions.take(j))).paragraphs by {
            if j == n - 1 {
                assert(actions.take(j) =~= before);
            } else {
                assert(actions.take(j) =~= before.take(j));
            }
        }
    }
}

/// Undoing a number of times takes that many states off the history.
proof fn lemma_undo_times(d: DocumentView, n: nat)
    requires
        n <= d.undo.len(),
    ensures
        undo_times(d, n).undo == d.undo.take(d.undo.len() - n),
        undo_times(d, n).paragraphs == if n == 0 {
            d.paragraphs
        } else {
            d.undo[d.undo.len() - n]
        },
    decreases n,
{
    if n == 0 {
        assert(d.undo.take(d.undo.len() as int) =~= d.undo);
    } else {
        lemma_undo_times(d, (n - 1) as nat);
        assert(d.undo.take(d.undo.len() - n + 1).drop_last() =~= d.undo.take(d.undo.len() - n));
    }
}

/// Full undo: after any number of changes, undos bring back the states before them one by one, as
/// far as the history reaches.  A document that had no history has none left then, so the next undo
/// finds nothing.
pub proof fn law_every_change_can_be_undone(d: DocumentView, actions: Seq<ActionView>, n: nat)
    requires
        d.well_formed(),
        forall|i: int| 0 <= i < actions.len() ==> (#[trigger] actions[i]).changes_document(),
        n <= least(actions.len(), MAX_HISTORY as nat),
    ensures
        undo_times(apply_all(d, actions), n).paragraphs == apply_all(
            d,
            actions.take(actions.len() - n),
        ).paragraphs,
        undo_times(apply_all(d, actions), n).undo.len() == least(
            d.undo.len() + actions.len(),
            MAX_HISTORY as nat,
        ) - n,
        d.undo.len() == 0 && n == least(actions.len(), MAX_HISTORY as nat) ==> undo_times(
            apply_all(d, actions),
            n,
        ).undo.len() == 0,
{
    lemma_history_of_changes(d, actions);
    lemma_undo_times(apply_all(d, actions), n);
    if n == 0 {
        assert(actions.take(actions.len() as int) =~= actions);
    }
}

/// Redo, a number of times.
pub open spec fn redo_times(d: DocumentView, n: nat) -> DocumentView
    decreases n,
{
    if n == 0 {
        d
    } else {
        redo_times(d.redone(), (n - 1) as nat)
    }
}

/// Full redo: whatever was undone comes back, text, history and all, by as many redos.
pub proof fn law_everything_undone_can_be_redone(d: DocumentView, n: nat)
    requires
        n <= d.undo.len(),
    ensures
        redo_times(undo_times(d, n), n) == d,
    decreases n,
{
    if n > 0 {
        lemma_undo_times(d, (n - 1) as nat);
        law_redo_reverses_undo(undo_times(d, (n - 1) as nat));
        law_everything_undone_can_be_redone(d, (n - 1) as nat);
    }
}

/// Dropping the parts that are empty drops no others.
proof fn lemma_nonempty(paragraphs: Paragraphs)
    ensures
        forall|i: int|
            0 <= i < nonempty(paragraphs).len() ==> (#[trigger] nonempty(paragraphs)[i]).len() > 0,
        (nonempty(paragraphs).len() == 0) == (forall|i: int|
            0 <= i < paragraphs.len() ==> (#[trigger] paragraphs[i]).len() == 0),
    decreases paragraphs.len(),
{
    reveal(Seq::filter);
    if paragraphs.len() > 0 {
        let front = paragraphs.drop_last();
        lemma_nonempty(front);
        if nonempty(paragraphs).len() == 0 {
            assert forall|i: int| 0 <= i < paragraphs.len() implies (
            #[trigger] paragraphs[i]).len() == 0 by {
                if i < front.len() {
                    assert(front[i].len() == 0);
                }
            }
        } else if forall|i: int|
            0 <= i < paragraphs.len() ==> (#[trigger] paragraphs[i]).len() == 0 {
            assert(paragraphs[paragraphs.len() - 1].len() == 0);
            assert forall|i: int| 0 <= i < front.len() implies (#[trigger] front[i]).len() == 0 by {
                assert(paragraphs[i].len() == 0);
            }
        }
    }
}

/// The joined text of some parts is at least as long as the last of them.
proof fn lemma_joined_len(parts: Paragraphs, separator: Seq<char>)
    ensures
        parts.len() == 0 ==> joined(parts, separator).len() == 0,
        parts.len() > 0 ==> joined(parts, separator).len() >= parts.last().len(),
{
}

/// A document is empty exactly when its text is, and when it has no paragraph that counts.
pub proof fn law_empty_documents(d: DocumentView)
    ensures
        d.is_empty() == (d.rendered().len() == 0),
        d.is_empty() == (nonempty(d.paragraphs).len() == 0),
{
    lemma_nonempty(d.paragraphs);
    lemma_joined_len(nonempty(d.paragraphs), "\n\n"@);
    let parts = nonempty(d.paragraphs);
    if parts.len() > 0 {
        assert(parts[parts.len() - 1].len() > 0);
    }
}

/// Clearing leaves an empty document, and can be undone.
pub proof fn law_clear(d: DocumentView)
    requires
        d.well_formed(),
    ensures
        d.clear().is_empty(),
        d.clear().undone().paragraphs == d.paragraphs,
{
}

/// The format plays no part in the text that is already there, and toggling it twice changes
/// nothing.
pub proof fn law_toggling_the_format(d: DocumentView)
    ensures
        d.format_toggled().rendered() == d.rendered(),
        d.format_toggled().format != d.format,
        d.format_toggled().format_toggled() == d,
{
}

/// Dictation adds to the text and changes nothing that was there: the new text stands behind
/// a space in the last paragraph, or as the first text of a new one.
pub proof fn law_dictation_extends_the_text(d: DocumentView, text: Seq<char>)
    requires
        d.well_formed(),
        text.len() > 0,
    ensures
        d.append_text(text).rendered() == d.rendered() + (if d.paragraphs.last().len() > 0 {
            " "@
        } else if d.is_empty() {
            ""@
        } else {
            "\n\n"@
        }) + text,
{
    reveal(Seq::filter);
    reveal_strlit(" ");
    reveal_strlit("");
    law_empty_documents(d);
    let old_ps = d.paragraphs;
    let front = old_ps.drop_last();
    let last = old_ps.last();
    let e = d.append_text(text);
    let parts = nonempty(front);
    assert(e.paragraphs == front.push(extended(last, text)));
    assert(e.paragraphs.drop_last() =~= front);
    assert(nonempty(e.paragraphs) == parts.push(extended(last, text)));
    assert(parts.push(extended(last, text)).drop_last() =~= parts);
    if last.len() > 0 {
        assert(nonempty(old_ps) == parts.push(last));
        assert(parts.push(last).drop_last() =~= parts);
        assert(extended(last, text) =~= last + " "@ + text);
        assert(e.rendered() =~= d.rendered() + " "@ + text);
    } else {
        assert(nonempty(old_ps) == parts);
        if parts.len() == 0 {
            assert(e.rendered() =~= d.rendered() + ""@ + text);
        } else {
            assert(e.rendered() =~= d.rendered() + "\n\n"@ + text);
        }
    }
}

/// Starting a new paragraph shows nothing by itself; what is dictated next stands behind an empty
/// line.
pub proof fn law_a_new_paragraph_separates(d: DocumentView, text: Seq<char>)
    requires
        d.well_formed(),
        !d.is_empty(),
        text.len() > 0,
    ensures
        d.new_paragraph().rendered() == d.rendered(),
        d.new_paragraph().append_text(text).rendered() == d.rendered() + "\n\n"@ + text,
{
    reveal(Seq::filter);
    let e = d.new_paragraph();
    assert(e.paragraphs.drop_last() =~= d.paragraphs);
    assert(nonempty(e.paragraphs) == nonempty(d.paragraphs));
    law_empty_documents(d);
    law_empty_documents(e);
    let nothing = ActionView::Command { action: EditCommand::NewParagraph, text: None };
    law_well_formed_is_kept(d, nothing);
    law_dictation_extends_the_text(e, text);
}

/// Deleting the last paragraph takes away what was dictated into a new one.
pub proof fn law_deleting_a_new_paragraph(d: DocumentView, text: Seq<char>)
    requires
        d.well_formed(),
    ensures
        d.new_paragraph().append_text(text).delete_last_paragraph().paragraphs == d.paragraphs,
{
    let e = d.new_paragraph().append_text(text);
    assert(e.paragraphs.drop_last() =~= d.paragraphs);
}

/// A text behind white space adds its words to those before it.
proof fn lemma_words_add(before: Seq<char>, space: char, text: Seq<char>)
    requires
        is_whitespace(space),
    ensures
        words(before.push(space) + text) == words(before) + words(text),
{
    law_words_add_up(before, space, text);
}

/// Paragraphs that are empty have no words and no characters.
proof fn lemma_totals_of_nonempty(paragraphs: Paragraphs)
    ensures
        total_words(nonempty(paragraphs)) == total_words(paragraphs),
        total_chars(nonempty(paragraphs)) == total_chars(paragraphs),
    decreases paragraphs.len(),
{
    reveal(Seq::filter);
    if paragraphs.len() > 0 {
        let front = paragraphs.drop_last();
        let last = paragraphs.last();
        lemma_totals_of_nonempty(front);
        if last.len() > 0 {
            assert(nonempty(paragraphs) == nonempty(front).push(last));
            assert(nonempty(front).push(last).drop_last() =~= nonempty(front));
        } else {
            assert(nonempty(paragraphs) == nonempty(front));
        }
    }
}

/// The words and characters of paragraphs that are joined by empty lines.
proof fn lemma_totals_of_joined(parts: Paragraphs)
    ensures
        words(joined(parts, "\n\n"@)) == total_words(parts),
        parts.len() > 0 ==> joined(parts, "\n\n"@).len() == total_chars(parts) + 2 * (parts.len()
            - 1),
    decreases parts.len(),
{
    reveal_strlit("\n\n");
    if parts.len() > 0 {
        let front = parts.drop_last();
        let last = parts.last();
        lemma_totals_of_joined(front);
        if front.len() == 0 {
            assert(front =~= Seq::<Seq<char>>::empty());
            assert(total_words(front) == 0 && total_chars(front) == 0);
            assert(parts[0] == last);
        } else {
            let above = joined(front, "\n\n"@);
            assert(above + "\n\n"@ + last =~= above.push('\n').push('\n') + last);
            lemma_words_add(above.push('\n'), '\n', last);
            lemma_words_add(above, '\n', Seq::empty());
            assert(above.push('\n') + Seq::<char>::empty() =~= above.push('\n'));
        }
    }
}

/// The word count is that of the rendered text: the words of neighbouring paragraphs are never
/// taken for one.
pub proof fn law_the_words_are_those_of_the_text(d: DocumentView)
    ensures
        total_words(d.paragraphs) == words(d.rendered()),
{
    lemma_totals_of_nonempty(d.paragraphs);
    lemma_totals_of_joined(nonempty(d.paragraphs));
}

/// The rendered text is longer than the character count by the two characters of the empty line
/// between any two paragraphs.
pub proof fn law_the_characters_are_those_of_the_text(d: DocumentView)
    ensures
        d.is_empty() ==> total_chars(d.paragraphs) == 0,
        !d.is_empty() ==> d.rendered().len() == total_chars(d.paragraphs) + 2 * (nonempty(
            d.paragraphs,
        ).len() - 1),
{
    law_empty_documents(d);
    lemma_totals_of_nonempty(d.paragraphs);
    lemma_totals_of_joined(nonempty(d.paragraphs));
}

/// Dictation adds the words of what is dictated to the word count.
pub proof fn law_dictated_words_are_counted(d: DocumentView, text: Seq<char>)
    requires
        d.well_formed(),
    ensures
        total_words(d.append_text(text).paragraphs) == total_words(d.paragraphs) + words(text),
{
    if text.len() > 0 {
        let last = d.paragraphs.last();
        let e = d.append_text(text);
        assert(e.paragraphs.drop_last() =~= d.paragraphs.drop_last());
        if last.len() > 0 {
            lemma_words_add(last, ' ', text);
        }
    }
}

/// A heading or a bullet point that was inserted stands at the end of the text.
pub proof fn law_inserted_lines_end_the_text(d: DocumentView, text: Seq<char>)
    requires
        d.well_formed(),
    ensures
        d.bullet(text).len() > 0 ==> d.bullet(text).is_suffix_of(d.insert_bullet(text).rendered()),
        d.heading(text).len() > 0 ==> d.heading(text).is_suffix_of(
            d.insert_heading(text).rendered(),
        ),
{
    reveal(Seq::filter);
    let bullet = d.bullet(text);
    let b = d.insert_bullet(text);
    let heading = d.heading(text);
    let h = d.insert_heading(text);
    if bullet.len() > 0 {
        let front = b.paragraphs.drop_last();
        assert(nonempty(b.paragraphs) == nonempty(front).push(bullet));
        assert(nonempty(front).push(bullet).drop_last() =~= nonempty(front));
        assert(bullet =~= b.rendered().subrange(
            b.rendered().len() - bullet.len(),
            b.rendered().len() as int,
        ));
    }
    if heading.len() > 0 {
        let above = h.paragraphs.drop_last();
        let front = above.drop_last();
        assert(above.last() == heading);
        assert(nonempty(h.paragraphs) == nonempty(above));
        assert(nonempty(above) == nonempty(front).push(heading));
        assert(nonempty(front).push(heading).drop_last() =~= nonempty(front));
        assert(heading =~= h.rendered().subrange(
            h.rendered().len() - heading.len(),
            h.rendered().len() as int,
        ));
    }
}

/// In Markdown a heading is marked by a hash and a bullet point by a dash.
pub proof fn law_markdown_marks(d: DocumentView, text: Seq<char>)
    requires
        d.format == OutputFormat::Markdown,
    ensures
        d.heading(text) == seq!['#', ' '] + text,
        d.bullet(text) == seq!['-', ' '] + text,
{
    law_marks(d, text);
}

/// Deleting the last sentence keeps a beginning of the paragraph, drops at least one character,
/// and leaves nothing or something that ends as a sentence does.
pub proof fn law_deleting_the_last_sentence(paragraph: Seq<char>)
    requires
        paragraph.len() > 0,
    ensures
        without_last_sentence(paragraph).is_prefix_of(paragraph),
        without_last_sentence(paragraph).len() < paragraph.len(),
        without_last_sentence(paragraph).len() == 0 || CharClass::SentenceEnd.has(
            without_last_sentence(paragraph).last(),
        ),
{
    let t = trim_end_of(paragraph, CharClass::Whitespace);
    lemma_trim_end_is_prefix(paragraph, CharClass::Whitespace);
    let searched = if t.len() > 0 {
        t.drop_last()
    } else {
        t
    };
    lemma_last_index_in(searched, CharClass::SentenceEnd);
}

/// A sentence that was dictated behind complete sentences is what deleting the last sentence
/// takes away.
pub proof fn law_deleting_what_was_just_dictated(before: Seq<char>, sentence: Seq<char>)
    requires
        before.len() > 0,
        CharClass::SentenceEnd.has(before.last()),
        sentence.len() > 0,
        !is_whitespace(sentence.last()),
        forall|i: int|
            0 <= i < sentence.len() - 1 ==> !CharClass::SentenceEnd.has(#[trigger] sentence[i]),
    ensures
        without_last_sentence(extended(before, sentence)) == before,
{
    let p = extended(before, sentence);
    assert(p.last() == sentence.last());
    let searched = p.drop_last();
    lemma_last_index_in(searched, CharClass::SentenceEnd);
    let k = last_index_in(searched, CharClass::SentenceEnd);
    let n = before.len() as int;
    assert(searched[n - 1] == before.last());
    if k > n - 1 {
        if k == n {
            assert(searched[k] == ' ');
        } else {
            assert(searched[k] == sentence[k - n - 1]);
        }
        assert(false);
    }
    assert(k == n - 1);
    assert(p.take(n) =~= before);
}

/// The end of the document that a summary shows takes at most its share of bytes, and stands at
/// the end of the text.
pub proof fn law_summaries_are_brief(d: DocumentView)
    ensures
        byte_len(tail_within(d.rendered(), SUMMARY_BYTES as nat)) <= SUMMARY_BYTES,
        tail_within(d.rendered(), SUMMARY_BYTES as nat).is_suffix_of(d.rendered()),
        tail_within(d.rendered(), SUMMARY_BYTES as nat).is_suffix_of(d.recent()),
{
    let r = d.rendered();
    lemma_tail_within_fits(r, SUMMARY_BYTES as nat);
    let tail = tail_within(r, SUMMARY_BYTES as nat);
    if tail.len() < r.len() {
        let shown = "..."@ + tail;
        assert(shown.subrange(shown.len() - tail.len(), shown.len() as int) =~= tail);
    }
}

proof fn lemma_tail_within_fits(s: Seq<char>, limit: nat)
    ensures
        byte_len(tail_within(s, limit)) <= limit,
        tail_within(s, limit).is_suffix_of(s),
    decreases s.len(),
{
    if byte_len(s) <= limit || s.len() == 0 {
        assert(s.subrange(0, s.len() as int) =~= s);
    } else {
        lemma_tail_within_fits(s.skip(1), limit);
        let t = tail_within(s, limit);
        let u = s.skip(1);
        assert(u.subrange(u.len() - t.len(), u.len() as int) =~= s.subrange(
            s.len() - t.len(),
            s.len() as int,
        ));
    }
}

// ---------------------------------------------------------------------------
// What each edit does to the paragraphs
// ---------------------------------------------------------------------------

/// Dictation changes no paragraph but the last, which keeps what it held and goes on with the new
/// text, behind a space where it held any.
pub proof fn law_dictation_changes_the_last_paragraph(d: DocumentView, text: Seq<char>)
    requires
        d.well_formed(),
        text.len() > 0,
    ensures
        ({
            let old_ps = d.paragraphs;
            let ps = d.append_text(text).paragraphs;
            let n = old_ps.len() - 1;
            &&& ps.len() == old_ps.len()
            &&& forall|i: int| 0 <= i < n ==> #[trigger] ps[i] == old_ps[i]
            &&& old_ps[n].len() == 0 ==> ps[n] == text
            &&& old_ps[n].len() > 0 ==> ps[n] == old_ps[n] + seq![' '] + text
        }),
        d.append_text(Seq::empty()) == d,
{
    let last = d.paragraphs.last();
    if last.len() > 0 {
        assert(last.push(' ') + text =~= last + seq![' '] + text);
    }
}

/// A new paragraph stands, empty, behind all that were there.
pub proof fn law_a_new_paragraph_keeps_the_others(d: DocumentView)
    ensures
        d.new_paragraph().paragraphs == d.paragraphs + seq![Seq::<char>::empty()],
{
    assert(d.paragraphs.push(Seq::empty()) =~= d.paragraphs + seq![Seq::<char>::empty()]);
}

/// Inserting a heading keeps every paragraph at its place: the heading stands behind them, and an
/// empty paragraph behind the heading, for what is dictated next.
pub proof fn law_a_heading_keeps_the_text(d: DocumentView, text: Seq<char>)
    requires
        d.well_formed(),
    ensures
        ({
            let ps = d.insert_heading(text).paragraphs;
            let n = d.paragraphs.len() as int;
            &&& ps.len() == n + 2
            &&& forall|i: int| 0 <= i < n ==> #[trigger] ps[i] == d.paragraphs[i]
            &&& ps[n] == d.heading(text)
            &&& ps[n + 1].len() == 0
        }),
        d.heading(text).len() > 0 && !d.is_empty() ==> d.insert_heading(text).rendered()
            == d.rendered() + "\n\n"@ + d.heading(text),
        d.heading(text).len() > 0 && d.is_empty() ==> d.insert_heading(text).rendered()
            == d.heading(text),
{
    let h = d.insert_heading(text);
    let titled = DocumentView { paragraphs: d.paragraphs.push(d.heading(text)), ..d };
    law_rendering(d, d.heading(text));
    law_rendering(titled, Seq::empty());
    law_empty_documents(d);
    assert(h.paragraphs =~= titled.paragraphs.push(Seq::empty()));
}

/// Inserting a bullet point keeps every paragraph that holds text at its place: the bullet point
/// takes the place of an empty paragraph at the end, or stands behind the last one.
pub proof fn law_a_bullet_keeps_the_text(d: DocumentView, text: Seq<char>)
    requires
        d.well_formed(),
    ensures
        ({
            let old_ps = d.paragraphs;
            let ps = d.insert_bullet(text).paragraphs;
            let n = old_ps.len() - 1;
            &&& forall|i: int| 0 <= i < n ==> #[trigger] ps[i] == old_ps[i]
            &&& old_ps[n].len() == 0 ==> ps.len() == n + 1
            &&& old_ps[n].len() > 0 ==> ps.len() == n + 2 && ps[n] == old_ps[n]
            &&& ps.last() == d.bullet(text)
        }),
        !d.is_empty() ==> d.insert_bullet(text).rendered() == d.rendered() + "\n\n"@ + d.bullet(text),
        d.is_empty() ==> d.insert_bullet(text).rendered() == d.bullet(text),
{
    let b = d.insert_bullet(text);
    let n = d.paragraphs.len() - 1;
    law_marks(d, text);
    law_empty_documents(d);
    if d.paragraphs[n].len() == 0 {
        let above = DocumentView { paragraphs: d.paragraphs.drop_last(), ..d };
        assert(d.paragraphs[n] =~= Seq::<char>::empty());
        law_rendering(above, Seq::empty());
        law_rendering(above, d.bullet(text));
        assert(above.paragraphs.push(Seq::empty()) =~= d.paragraphs);
        assert(above.paragraphs.push(d.bullet(text)) =~= b.paragraphs);
    } else {
        law_rendering(d, d.bullet(text));
        assert(b.paragraphs =~= d.paragraphs.push(d.bullet(text)));
    }
}

/// Deleting the last paragraph keeps all others, and clears it where there is no other.
pub proof fn law_deleting_a_paragraph_keeps_the_others(d: DocumentView)
    requires
        d.well_formed(),
    ensures
        d.paragraphs.len() > 1 ==> d.delete_last_paragraph().paragraphs == d.paragraphs.take(
            d.paragraphs.len() - 1,
        ),
        d.paragraphs.len() == 1 ==> d.delete_last_paragraph().paragraphs == seq![
            Seq::<char>::empty(),
        ],
{
    assert(d.paragraphs.drop_last() =~= d.paragraphs.take(d.paragraphs.len() - 1));
}

/// Deleting the last sentence changes no paragraph but the last.
pub proof fn law_deleting_a_sentence_keeps_the_other_paragraphs(d: DocumentView)
    requires
        d.well_formed(),
    ensures
        ({
            let ps = d.delete_last_sentence().paragraphs;
            let n = d.paragraphs.len() - 1;
            &&& ps.len() == d.paragraphs.len()
            &&& forall|i: int| 0 <= i < n ==> #[trigger] ps[i] == d.paragraphs[i]
            &&& ps[n] == without_last_sentence(d.paragraphs[n])
        }),
{
}

/// What is deleted is one sentence: behind what is kept, which is nothing or ends as a sentence
/// does, no sentence ends but at the last character before the white space at the end.
pub proof fn law_one_sentence_is_deleted(text: Seq<char>, space: Seq<char>)
    requires
        forall|i: int| 0 <= i < space.len() ==> is_whitespace(#[trigger] space[i]),
        text.len() > 0 ==> !is_whitespace(text.last()),
    ensures
        ({
            let kept = without_last_sentence(text + space);
            let n = kept.len() as int;
            &&& kept == text.take(n)
            &&& text.len() == 0 ==> n == 0
            &&& text.len() > 0 ==> n < text.len()
            &&& n > 0 ==> CharClass::SentenceEnd.has(text[n - 1])
            &&& forall|i: int|
                n <= i < text.len() - 1 ==> !CharClass::SentenceEnd.has(#[trigger] text[i])
        }),
{
    let p = text + space;
    assert(crate::text::all_in(space, CharClass::Whitespace)) by {
        assert forall|i: int| 0 <= i < space.len() implies CharClass::Whitespace.has(
            #[trigger] space[i],
        ) by {}
    }
    law_trimming_the_end_is_exact(text, space, CharClass::Whitespace);
    let searched = if text.len() > 0 {
        text.drop_last()
    } else {
        text
    };
    lemma_last_index_in(searched, CharClass::SentenceEnd);
    let n = last_index_in(searched, CharClass::SentenceEnd) + 1;
    assert(p.take(n) =~= text.take(n));
    if n > 0 {
        assert(searched[n - 1] == text[n - 1]);
    }
    assert forall|i: int| n <= i < text.len() - 1 implies !CharClass::SentenceEnd.has(
        #[trigger] text[i],
    ) by {
        assert(searched[i] == text[i]);
    }
}

/// Clearing leaves one empty paragraph.
pub proof fn law_clearing_leaves_nothing(d: DocumentView)
    ensures
        d.clear().paragraphs == seq![Seq::<char>::empty()],
        d.clear().rendered().len() == 0,
{
    law_empty_documents(d.clear());
}

/// Each action does its own edit: dictation types, the commands do what they are named for, a
/// heading or a bullet point without a text is none, and conversation does nothing.
pub proof fn law_each_action_does_its_edit(d: DocumentView, text: Seq<char>, t: Option<Seq<char>>)
    ensures
        d.apply(ActionView::Dictate { text }) == d.append_text(text),
        d.apply(ActionView::Command { action: EditCommand::NewParagraph, text: t })
            == d.new_paragraph(),
        d.apply(ActionView::Command { action: EditCommand::DeleteLastSentence, text: t })
            == d.delete_last_sentence(),
        d.apply(ActionView::Command { action: EditCommand::DeleteLastParagraph, text: t })
            == d.delete_last_paragraph(),
        d.apply(ActionView::Command { action: EditCommand::Undo, text: t }) == d.undone(),
        d.apply(ActionView::Command { action: EditCommand::Redo, text: t }) == d.redone(),
        d.apply(ActionView::Command { action: EditCommand::ClearAll, text: t }) == d.clear(),
        d.apply(ActionView::Command { action: EditCommand::InsertHeading, text: Some(text) })
            == d.insert_heading(text),
        d.apply(ActionView::Command { action: EditCommand::InsertHeading, text: None }) == d,
        d.apply(ActionView::Command { action: EditCommand::InsertBullet, text: Some(text) })
            == d.insert_bullet(text),
        d.apply(ActionView::Command { action: EditCommand::InsertBullet, text: None }) == d,
        d.apply(ActionView::Conversation { response: text }) == d,
{
}

/// No action changes the format or the length of the history, and the format changes nothing else.
pub proof fn law_the_format_is_kept(d: DocumentView, action: ActionView)
    ensures
        d.apply(action).format == d.format,
        d.apply(action).max_history == d.max_history,
        d.format_toggled().paragraphs == d.paragraphs,
        d.format_toggled().undo == d.undo,
        d.format_toggled().redo == d.redo,
        d.format_toggled().max_history == d.max_history,
{
}

/// Undo takes the latest earlier state, and keeps the current one to be redone; without an earlier
/// state it does nothing.  Redo takes the state that was undone last, and keeps the current one to
/// be undone; where nothing was undone it does nothing.
pub proof fn law_what_undo_and_redo_do(d: DocumentView)
    ensures
        d.undo.len() == 0 ==> d.undone() == d,
        d.undo.len() > 0 ==> d.undone().paragraphs == d.undo[d.undo.len() - 1] && d.undone().undo
            == d.undo.take(d.undo.len() - 1) && d.undone().redo == d.redo + seq![d.paragraphs],
        d.redo.len() == 0 ==> d.redone() == d,
        d.redo.len() > 0 ==> d.redone().paragraphs == d.redo[d.redo.len() - 1] && d.redone().redo
            == d.redo.take(d.redo.len() - 1) && d.redone().undo == d.undo + seq![d.paragraphs],
{
    if d.undo.len() > 0 {
        assert(d.undone().undo =~= d.undo.take(d.undo.len() - 1));
        assert(d.undone().redo =~= d.redo + seq![d.paragraphs]);
    }
    if d.redo.len() > 0 {
        assert(d.redone().redo =~= d.redo.take(d.redo.len() - 1));
        assert(d.redone().undo =~= d.undo + seq![d.paragraphs]);
    }
}

/// The history grows by the state before a change, and loses the oldest one where it is full.
pub proof fn law_a_change_is_remembered(d: DocumentView, action: ActionView)
    requires
        d.well_formed(),
        action.changes_document(),
    ensures
        d.undo.len() < 100 ==> d.apply(action).undo == d.undo + seq![d.paragraphs],
        d.undo.len() == 100 ==> d.apply(action).undo == d.undo.skip(1) + seq![d.paragraphs],
{
    law_what_an_action_does(d, action);
    let u = d.apply(action).undo;
    if d.undo.len() < 100 {
        assert(u =~= d.undo + seq![d.paragraphs]);
    } else if d.undo.len() == 100 {
        assert(u =~= d.undo.skip(1) + seq![d.paragraphs]);
    }
}

// ---------------------------------------------------------------------------
// What is shown of the document
// ---------------------------------------------------------------------------

/// One more paragraph goes on the end of the text, behind an empty line where there is any text
/// before it; an empty one leaves the text as it is, and does not count as a paragraph.
pub proof fn law_rendering(d: DocumentView, paragraph: Seq<char>)
    ensures
        ({
            let more = DocumentView { paragraphs: d.paragraphs.push(paragraph), ..d };
            &&& paragraph.len() == 0 ==> more.rendered() == d.rendered()
            &&& paragraph.len() > 0 && d.rendered().len() == 0 ==> more.rendered() == paragraph
            &&& paragraph.len() > 0 && d.rendered().len() > 0 ==> more.rendered() == d.rendered()
                + "\n\n"@ + paragraph
            &&& nonempty(more.paragraphs).len() == nonempty(d.paragraphs).len() + if paragraph.len()
                > 0 {
                1int
            } else {
                0
            }
        }),
        nonempty(Seq::empty()).len() == 0,
        d.paragraphs.len() == 0 ==> d.rendered().len() == 0,
{
    reveal(Seq::filter);
    let more = DocumentView { paragraphs: d.paragraphs.push(paragraph), ..d };
    let parts = nonempty(d.paragraphs);
    assert(more.paragraphs.drop_last() =~= d.paragraphs);
    assert(more.paragraphs.last() == paragraph);
    law_empty_documents(d);
    if paragraph.len() > 0 {
        assert(nonempty(more.paragraphs) == parts.push(paragraph));
        assert(parts.push(paragraph).drop_last() =~= parts);
    } else {
        assert(nonempty(more.paragraphs) == parts);
    }
}

/// Headings and bullet points are marked: in Markdown by a hash and a dash, in plain text by upper
/// case and a dot.
pub proof fn law_marks(d: DocumentView, text: Seq<char>)
    ensures
        d.format == OutputFormat::Markdown ==> d.heading(text) == seq!['#', ' '] + text,
        d.format == OutputFormat::Markdown ==> d.bullet(text) == seq!['-', ' '] + text,
        d.format == OutputFormat::PlainText ==> d.heading(text) == uppered(text),
        d.format == OutputFormat::PlainText ==> d.bullet(text) == seq!['•', ' '] + text,
        d.bullet(text).len() > 0,
{
    reveal_strlit("# ");
    reveal_strlit("- ");
    reveal_strlit("• ");
    assert("# "@ =~= seq!['#', ' ']);
    assert("- "@ =~= seq!['-', ' ']);
    assert("• "@ =~= seq!['•', ' ']);
}

/// A line of the document panel is its number and its paragraph.
pub proof fn law_lines_are_numbered(number: nat, paragraph: Seq<char>)
    ensures
        numbered(number, paragraph) == decimal(number) + seq!['.', ' '] + paragraph,
{
    reveal_strlit(". ");
    assert(". "@ =~= seq!['.', ' ']);
}

/// A summary says how many paragraphs and words there are, and then gives the whole text, or its
/// longest end of 500 bytes behind dots.
pub proof fn law_what_a_summary_says(d: DocumentView, end: Seq<char>)
    ensures
        d.is_empty() ==> d.summary() == "[Document is empty]"@,
        !d.is_empty() ==> d.summary() == "[Document: "@ + decimal(nonempty(d.paragraphs).len())
            + " paragraphs, "@ + decimal(words(d.rendered())) + " words]\n--- Recent content ---\n"@
            + d.recent(),
        encode_utf8(d.rendered()).len() <= 500 ==> d.recent() == d.rendered(),
        encode_utf8(d.rendered()).len() > 500 ==> {
            let shown = d.recent().skip(3);
            &&& d.recent().len() >= 3
            &&& d.recent().take(3) == seq!['.', '.', '.']
            &&& shown.is_suffix_of(d.rendered())
            &&& encode_utf8(shown).len() <= 500
            &&& end.is_suffix_of(d.rendered()) && encode_utf8(end).len() <= 500 ==> end.len()
                <= shown.len()
        },
{
    reveal_strlit("...");
    law_empty_documents(d);
    law_the_words_are_those_of_the_text(d);
    let r = d.rendered();
    let t = tail_within(r, SUMMARY_BYTES as nat);
    law_the_longest_end_that_fits(r, SUMMARY_BYTES as nat, end);
    if encode_utf8(r).len() > 500 {
        if t.len() == r.len() {
            assert(r.subrange(0, r.len() as int) =~= r);
            assert(t == r);
        }
        assert(d.recent().skip(3) =~= t);
        assert(d.recent().take(3) =~= seq!['.', '.', '.']);
    }
}

/// A new document has one empty paragraph, the format that it was made for, and no history, of which
/// it keeps a hundred states.
pub proof fn law_a_new_document(format: OutputFormat)
    ensures
        ({
            let d = DocumentView::empty(format);
            &&& d.paragraphs == seq![Seq::<char>::empty()]
            &&& d.format == format
            &&& d.undo.len() == 0 && d.redo.len() == 0
            &&& d.max_history == 100
            &&& d.is_empty() && d.well_formed()
        }),
{
}

/// There is a line for each paragraph, the empty ones included, in order: its number, counted from
/// one, and the paragraph as it is.
pub proof fn law_the_lines_are_the_paragraphs(d: DocumentView, i: int)
    ensures
        d.lines().len() == d.paragraphs.len(),
        0 <= i < d.paragraphs.len() ==> d.lines()[i] == decimal((i + 1) as nat) + seq!['.', ' ']
            + d.paragraphs[i],
{
    if 0 <= i < d.paragraphs.len() {
        law_lines_are_numbered((i + 1) as nat, d.paragraphs[i]);
    }
}

} // verus!
