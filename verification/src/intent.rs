//! Rule-based classification of utterances, used where no language model is configured.
use crate::events::{ActionView, EditCommand, LlmAction};
use crate::text::{
    all_in, all_plain_case, ascii_lower, ascii_lowercase, is_plain_case, is_whitespace, lowered,
    same, strip_prefix, trim, trim_of, trimmed, CharClass,
};
use crate::text_laws::{
    law_trimming_is_exact, lemma_trim_before, lemma_trim_behind, lemma_trim_push,
    lemma_trim_push_front, lemma_trimmed_ends,
};
use vstd::prelude::*;

verus! {

/// The command that a phrase stands for, in English or Chinese.
pub open spec fn phrase_command(p: Seq<char>) -> Option<EditCommand> {
    if p == "new paragraph"@ || p == "new line"@ || p == "換行"@ || p == "换行"@ || p == "另起一段"@
        || p == "下一段"@ {
        Some(EditCommand::NewParagraph)
    } else if p == "delete last sentence"@ || p == "delete sentence"@ || p == "刪除最後一句"@ || p
        == "删除最后一句"@ || p == "刪掉最後一句"@ || p == "删掉最后一句"@ {
        Some(EditCommand::DeleteLastSentence)
    } else if p == "delete last paragraph"@ || p == "delete paragraph"@ || p == "刪除最後一段"@ || p
        == "删除最后一段"@ || p == "刪掉最後一段"@ || p == "删掉最后一段"@ {
        Some(EditCommand::DeleteLastParagraph)
    } else if p == "undo"@ || p == "撤銷"@ || p == "撤销"@ || p == "復原"@ || p == "复原"@ {
        Some(EditCommand::Undo)
    } else if p == "redo"@ || p == "重做"@ {
        Some(EditCommand::Redo)
    } else if p == "clear all"@ || p == "clear document"@ || p == "清空"@ || p == "全部清空"@ || p
        == "清空文件"@ {
        Some(EditCommand::ClearAll)
    } else {
        None
    }
}

/// What stands behind the first of three words that a phrase starts with.
pub open spec fn behind_one_of(
    p: Seq<char>,
    first: Seq<char>,
    second: Seq<char>,
    third: Seq<char>,
) -> Option<Seq<char>> {
    if first.is_prefix_of(p) {
        Some(p.skip(first.len() as int))
    } else if second.is_prefix_of(p) {
        Some(p.skip(second.len() as int))
    } else if third.is_prefix_of(p) {
        Some(p.skip(third.len() as int))
    } else {
        None
    }
}

/// The command that a phrase in lower case asks for, with the text it carries.
pub open spec fn spoken_command(p: Seq<char>) -> Option<(EditCommand, Option<Seq<char>>)> {
    match phrase_command(p) {
        Some(command) => Some((command, None)),
        None => match behind_one_of(p, "heading "@, "標題 "@, "标题 "@) {
            Some(rest) => Some((EditCommand::InsertHeading, Some(trimmed(rest)))),
            None => match behind_one_of(p, "bullet "@, "項目 "@, "列表 "@) {
                Some(rest) => Some((EditCommand::InsertBullet, Some(trimmed(rest)))),
                None => None,
            },
        },
    }
}

/// What an utterance asks for, given its lower-case form: the command that is left when the
/// punctuation around it is taken away, and dictation where that is none.
pub open spec fn intent_of(lower: Seq<char>, text: Seq<char>) -> ActionView {
    match spoken_command(trim_of(lower, CharClass::CommandPunctuation)) {
        Some((action, param)) => ActionView::Command { action, text: param },
        None => ActionView::Dictate { text: trimmed(text) },
    }
}

/// What an utterance asks for.
pub open spec fn spoken_intent(text: Seq<char>) -> ActionView {
    intent_of(lowered(trimmed(text)), text)
}

/// Tests for the phrases that are commands by themselves.
fn match_phrase(p: &str) -> (r: Option<EditCommand>)
    ensures
        r == phrase_command(p@),
{
    if same(p, "new paragraph") || same(p, "new line") || same(p, "換行") || same(p, "换行")
        || same(p, "另起一段") || same(p, "下一段") {
        Some(EditCommand::NewParagraph)
    } else if same(p, "delete last sentence") || same(p, "delete sentence") || same(
        p,
        "刪除最後一句",
    ) || same(p, "删除最后一句") || same(p, "刪掉最後一句") || same(p, "删掉最后一句") {
        Some(EditCommand::DeleteLastSentence)
    } else if same(p, "delete last paragraph") || same(p, "delete paragraph") || same(
        p,
        "刪除最後一段",
    ) || same(p, "删除最后一段") || same(p, "刪掉最後一段") || same(p, "删掉最后一段") {
        Some(EditCommand::DeleteLastParagraph)
    } else if same(p, "undo") || same(p, "撤銷") || same(p, "撤销") || same(p, "復原") || same(
        p,
        "复原",
    ) {
        Some(EditCommand::Undo)
    } else if same(p, "redo") || same(p, "重做") {
        Some(EditCommand::Redo)
    } else if same(p, "clear all") || same(p, "clear document") || same(p, "清空") || same(
        p,
        "全部清空",
    ) || same(p, "清空文件") {
        Some(EditCommand::ClearAll)
    } else {
        None
    }
}

/// Finds what stands behind the first of three words that a phrase starts with.
fn match_prefix<'a>(p: &'a str, first: &str, second: &str, third: &str) -> (r: Option<&'a str>)
    ensures
        match r {
            Some(rest) => Some(rest@) == behind_one_of(p@, first@, second@, third@),
            None => behind_one_of(p@, first@, second@, third@) is None,
        },
{
    if let Some(rest) = strip_prefix(p, first) {
        proof {
            lemma_behind_prefix(p@, first@, rest@);
        }
        return Some(rest);
    }
    if let Some(rest) = strip_prefix(p, second) {
        proof {
            lemma_behind_prefix(p@, second@, rest@);
        }
        return Some(rest);
    }
    match strip_prefix(p, third) {
        Some(rest) => {
            proof {
                lemma_behind_prefix(p@, third@, rest@);
            }
            Some(rest)
        },
        None => None,
    }
}

/// A text that was put together starts with its first part and goes on with the second.
proof fn lemma_behind_prefix(p: Seq<char>, prefix: Seq<char>, rest: Seq<char>)
    requires
        p == prefix + rest,
    ensures
        prefix.is_prefix_of(p),
        p.skip(prefix.len() as int) == rest,
{
    assert(prefix =~= p.subrange(0, prefix.len() as int));
    assert(p.skip(prefix.len() as int) =~= rest);
}

/// Classifies an utterance by its lower-case form.
pub fn classify_lowercase(lower: &str, text: &str) -> (r: LlmAction)
    ensures
        r@ == intent_of(lower@, text@),
{
    let phrase: &str = trim(lower, CharClass::CommandPunctuation);
    if let Some(action) = match_phrase(phrase) {
        return LlmAction::Command { action, text: None };
    }
    if let Some(rest) = match_prefix(phrase, "heading ", "標題 ", "标题 ") {
        return LlmAction::Command {
            action: EditCommand::InsertHeading,
            text: Some(trim(rest, CharClass::Whitespace).to_string()),
        };
    }
    if let Some(rest) = match_prefix(phrase, "bullet ", "項目 ", "列表 ") {
        return LlmAction::Command {
            action: EditCommand::InsertBullet,
            text: Some(trim(rest, CharClass::Whitespace).to_string()),
        };
    }
    LlmAction::Dictate { text: trim(text, CharClass::Whitespace).to_string() }
}

/// Parse simple editing commands or dictation locally when no LLM API is configured.
pub fn parse_local_intent(text: &str) -> (r: LlmAction)
    ensures
        r@ == spoken_intent(text@),
{
    let lower: String = trim(text, CharClass::Whitespace).to_lowercase();
    classify_lowercase(lower.as_str(), text)
}

/// Local classification never answers; it types or edits.
pub proof fn law_offline_classification_never_converses(lower: Seq<char>, text: Seq<char>)
    ensures
        !(intent_of(lower, text) is Conversation),
{
}

/// An utterance that is no command is dictated as it was spoken, without the white space
/// around it.
pub proof fn law_no_command_is_dictation(lower: Seq<char>, text: Seq<char>)
    requires
        spoken_command(trim_of(lower, CharClass::CommandPunctuation)) is None,
    ensures
        intent_of(lower, text) == (ActionView::Dictate { text: trimmed(text) }),
{
}

/// Punctuation around an utterance does not change the command that it asks for.
pub proof fn law_punctuation_does_not_matter(lower: Seq<char>, c: char)
    requires
        CharClass::CommandPunctuation.has(c),
    ensures
        spoken_command(trim_of(lower.push(c), CharClass::CommandPunctuation)) == spoken_command(
            trim_of(lower, CharClass::CommandPunctuation),
        ),
        spoken_command(trim_of(seq![c] + lower, CharClass::CommandPunctuation)) == spoken_command(
            trim_of(lower, CharClass::CommandPunctuation),
        ),
{
    lemma_trim_push(lower, c, CharClass::CommandPunctuation);
    lemma_trim_push_front(lower, c, CharClass::CommandPunctuation);
}

/// The way in which a command is spoken does not matter: neither the case of its letters, nor
/// white space around it, nor punctuation behind it makes it another command or turns it into
/// dictation.  This is said of commands in ASCII and Chinese characters, whose lower-case form is
/// spelled out.
pub proof fn law_the_way_of_speaking_does_not_matter(
    text: Seq<char>,
    said: Seq<char>,
    before: Seq<char>,
    marks: Seq<char>,
    after: Seq<char>,
)
    requires
        trimmed(text) == text,
        all_plain_case(text),
        spoken_intent(text) is Command,
        ascii_lowercase(said) == ascii_lowercase(text),
        all_in(before, CharClass::Whitespace),
        all_in(marks, CharClass::CommandPunctuation),
        all_in(after, CharClass::Whitespace),
    ensures
        spoken_intent(before + said + marks + after) == spoken_intent(text),
{
    let w = CharClass::Whitespace;
    let core = said + marks;
    let all = before + said + marks + after;
    assert(ascii_lowercase(said).len() == said.len());
    assert(ascii_lowercase(text).len() == text.len());
    assert forall|i: int| 0 <= i < said.len() implies is_plain_case(#[trigger] said[i])
        && is_whitespace(said[i]) == is_whitespace(text[i]) by {
        assert(ascii_lowercase(said)[i] == ascii_lower(said[i]));
        assert(ascii_lowercase(text)[i] == ascii_lower(text[i]));
        assert(is_plain_case(text[i]));
    }
    assert forall|i: int| 0 <= i < marks.len() implies is_plain_case(#[trigger] marks[i])
        && !is_whitespace(marks[i]) && ascii_lower(marks[i]) == marks[i] by {
        assert(CharClass::CommandPunctuation.has(marks[i]));
    }
    // What is left when the white space is trimmed
    assert(trimmed(all) == core) by {
        assert(all =~= before + (core + after));
        lemma_trim_before(before, core + after, w);
        lemma_trim_behind(core, after, w);
        if core.len() > 0 {
            if text.len() > 0 {
                lemma_trimmed_ends(text, w);
            }
            if said.len() > 0 {
                assert(core[0] == said[0]);
            } else {
                assert(core[0] == marks[0]);
            }
            if marks.len() > 0 {
                assert(core.last() == marks[marks.len() - 1]);
            } else {
                assert(core.last() == said[said.len() - 1]);
            }
            assert(!w.has(core[0]) && !w.has(core.last()));
        }
    }
    // Its lower-case form
    assert forall|i: int| 0 <= i < core.len() implies is_plain_case(#[trigger] core[i]) by {
        if i < said.len() {
            assert(core[i] == said[i]);
        } else {
            assert(core[i] == marks[i - said.len()]);
        }
    }
    assert(ascii_lowercase(core) =~= ascii_lowercase(text) + marks) by {
        assert forall|i: int| 0 <= i < core.len() implies ascii_lowercase(core)[i] == (
        ascii_lowercase(text) + marks)[i] by {
            if i < said.len() {
                assert(ascii_lowercase(said)[i] == ascii_lower(said[i]));
            } else {
                assert(core[i] == marks[i - said.len()]);
            }
        }
    }
    lemma_trim_behind(ascii_lowercase(text), marks, CharClass::CommandPunctuation);
}

/// The listed phrases, with or without punctuation around them, are commands, each for its own
/// edit; and no other utterance is a command without a text.
pub proof fn law_the_phrases_that_are_commands(
    lower: Seq<char>,
    text: Seq<char>,
    before: Seq<char>,
    p: Seq<char>,
    behind: Seq<char>,
)
    requires
        lower == before + p + behind,
        all_in(before, CharClass::CommandPunctuation),
        all_in(behind, CharClass::CommandPunctuation),
        p.len() > 0 ==> !CharClass::CommandPunctuation.has(p[0])
            && !CharClass::CommandPunctuation.has(p.last()),
    ensures
        (intent_of(lower, text) == (ActionView::Command {
            action: EditCommand::NewParagraph,
            text: None,
        })) == (p == "new paragraph"@
            || p == "new line"@
            || p == "換行"@
            || p == "换行"@
            || p == "另起一段"@
            || p == "下一段"@),
        (intent_of(lower, text) == (ActionView::Command {
            action: EditCommand::DeleteLastSentence,
            text: None,
        })) == (p == "delete last sentence"@
            || p == "delete sentence"@
            || p == "刪除最後一句"@
            || p == "删除最后一句"@
            || p == "刪掉最後一句"@
            || p == "删掉最后一句"@),
        (intent_of(lower, text) == (ActionView::Command {
            action: EditCommand::DeleteLastParagraph,
            text: None,
        })) == (p == "delete last paragraph"@
            || p == "delete paragraph"@
            || p == "刪除最後一段"@
            || p == "删除最后一段"@
            || p == "刪掉最後一段"@
            || p == "删掉最后一段"@),
        (intent_of(lower, text) == (ActionView::Command {
            action: EditCommand::Undo,
            text: None,
        })) == (p == "undo"@
            || p == "撤銷"@
            || p == "撤销"@
            || p == "復原"@
            || p == "复原"@),
        (intent_of(lower, text) == (ActionView::Command {
            action: EditCommand::Redo,
            text: None,
        })) == (p == "redo"@
            || p == "重做"@),
        (intent_of(lower, text) == (ActionView::Command {
            action: EditCommand::ClearAll,
            text: None,
        })) == (p == "clear all"@
            || p == "clear document"@
            || p == "清空"@
            || p == "全部清空"@
            || p == "清空文件"@),
{
    law_trimming_is_exact(before, p, behind, CharClass::CommandPunctuation);
    lemma_phrases_differ(p);
}

/// No phrase is in two lists, and none starts as a heading or a bullet point does.
proof fn lemma_phrases_differ(p: Seq<char>)
    ensures
        (p == "new paragraph"@
            || p == "new line"@
            || p == "換行"@
            || p == "换行"@
            || p == "另起一段"@
            || p == "下一段"@) ==> phrase_command(p) == Some(EditCommand::NewParagraph),
        (p == "delete last sentence"@
            || p == "delete sentence"@
            || p == "刪除最後一句"@
            || p == "删除最后一句"@
            || p == "刪掉最後一句"@
            || p == "删掉最后一句"@) ==> phrase_command(p) == Some(EditCommand::DeleteLastSentence),
        (p == "delete last paragraph"@
            || p == "delete paragraph"@
            || p == "刪除最後一段"@
            || p == "删除最后一段"@
            || p == "刪掉最後一段"@
            || p == "删掉最后一段"@) ==> phrase_command(p) == Some(EditCommand::DeleteLastParagraph),
        (p == "undo"@
            || p == "撤銷"@
            || p == "撤销"@
            || p == "復原"@
            || p == "复原"@) ==> phrase_command(p) == Some(EditCommand::Undo),
        (p == "redo"@
            || p == "重做"@) ==> phrase_command(p) == Some(EditCommand::Redo),
        (p == "clear all"@
            || p == "clear document"@
            || p == "清空"@
            || p == "全部清空"@
            || p == "清空文件"@) ==> phrase_command(p) == Some(EditCommand::ClearAll),
        phrase_command(p) is Some ==> p.len() > 0 && p[0] != 'h' && p[0] != '標' && p[0] != '标'
            && p[0] != 'b' && p[0] != '項' && p[0] != '列',
{
    reveal_strlit("new paragraph");
    reveal_strlit("new line");
    reveal_strlit("換行");
    reveal_strlit("换行");
    reveal_strlit("另起一段");
    reveal_strlit("下一段");
    reveal_strlit("delete last sentence");
    reveal_strlit("delete sentence");
    reveal_strlit("刪除最後一句");
    reveal_strlit("删除最后一句");
    reveal_strlit("刪掉最後一句");
    reveal_strlit("删掉最后一句");
    reveal_strlit("delete last paragraph");
    reveal_strlit("delete paragraph");
    reveal_strlit("刪除最後一段");
    reveal_strlit("删除最后一段");
    reveal_strlit("刪掉最後一段");
    reveal_strlit("删掉最后一段");
    reveal_strlit("undo");
    reveal_strlit("撤銷");
    reveal_strlit("撤销");
    reveal_strlit("復原");
    reveal_strlit("复原");
    reveal_strlit("redo");
    reveal_strlit("重做");
    reveal_strlit("clear all");
    reveal_strlit("clear document");
    reveal_strlit("清空");
    reveal_strlit("全部清空");
    reveal_strlit("清空文件");
    assert("new paragraph"@.len() == 13 && "new paragraph"@[0] == 'n');
    assert("new line"@.len() == 8 && "new line"@[0] == 'n');
    assert("換行"@.len() == 2 && "換行"@[0] == '換');
    assert("换行"@.len() == 2 && "换行"@[0] == '换');
    assert("另起一段"@.len() == 4 && "另起一段"@[0] == '另');
    assert("下一段"@.len() == 3 && "下一段"@[0] == '下');
    assert("delete last sentence"@.len() == 20 && "delete last sentence"@[0] == 'd');
    assert("delete sentence"@.len() == 15 && "delete sentence"@[0] == 'd');
    assert("刪除最後一句"@.len() == 6 && "刪除最後一句"@[0] == '刪');
    assert("删除最后一句"@.len() == 6 && "删除最后一句"@[0] == '删');
    assert("刪掉最後一句"@.len() == 6 && "刪掉最後一句"@[0] == '刪');
    assert("删掉最后一句"@.len() == 6 && "删掉最后一句"@[0] == '删');
    assert("delete last paragraph"@.len() == 21 && "delete last paragraph"@[0] == 'd');
    assert("delete paragraph"@.len() == 16 && "delete paragraph"@[0] == 'd');
    assert("刪除最後一段"@.len() == 6 && "刪除最後一段"@[0] == '刪');
    assert("删除最后一段"@.len() == 6 && "删除最后一段"@[0] == '删');
    assert("刪掉最後一段"@.len() == 6 && "刪掉最後一段"@[0] == '刪');
    assert("删掉最后一段"@.len() == 6 && "删掉最后一段"@[0] == '删');
    assert("undo"@.len() == 4 && "undo"@[0] == 'u');
    assert("撤銷"@.len() == 2 && "撤銷"@[0] == '撤');
    assert("撤销"@.len() == 2 && "撤销"@[0] == '撤');
    assert("復原"@.len() == 2 && "復原"@[0] == '復');
    assert("复原"@.len() == 2 && "复原"@[0] == '复');
    assert("redo"@.len() == 4 && "redo"@[0] == 'r');
    assert("重做"@.len() == 2 && "重做"@[0] == '重');
    assert("clear all"@.len() == 9 && "clear all"@[0] == 'c');
    assert("clear document"@.len() == 14 && "clear document"@[0] == 'c');
    assert("清空"@.len() == 2 && "清空"@[0] == '清');
    assert("全部清空"@.len() == 4 && "全部清空"@[0] == '全');
    assert("清空文件"@.len() == 4 && "清空文件"@[0] == '清');
    assert("刪除最後一句"@[5] == '句');
    assert("删除最后一句"@[5] == '句');
    assert("刪掉最後一句"@[5] == '句');
    assert("删掉最后一句"@[5] == '句');
    assert("刪除最後一段"@[5] == '段');
    assert("删除最后一段"@[5] == '段');
    assert("刪掉最後一段"@[5] == '段');
    assert("删掉最后一段"@[5] == '段');
}

/// What stands behind one of the words for a heading or a bullet point, without the white space
/// around it, is the text of one.
pub proof fn law_headings_and_bullets_are_spoken(
    lower: Seq<char>,
    text: Seq<char>,
    before: Seq<char>,
    word: Seq<char>,
    left: Seq<char>,
    title: Seq<char>,
    right: Seq<char>,
    behind: Seq<char>,
)
    requires
        ({
            let p = word + left + title + right;
            &&& lower == before + p + behind
            &&& !CharClass::CommandPunctuation.has(p.last())
        }),
        all_in(before, CharClass::CommandPunctuation),
        all_in(behind, CharClass::CommandPunctuation),
        all_in(left, CharClass::Whitespace),
        all_in(right, CharClass::Whitespace),
        title.len() > 0 ==> !is_whitespace(title[0]) && !is_whitespace(title.last()),
    ensures
        word == "heading "@ || word == "標題 "@ || word == "标题 "@ ==> intent_of(lower, text) == (
        ActionView::Command { action: EditCommand::InsertHeading, text: Some(title) }),
        word == "bullet "@ || word == "項目 "@ || word == "列表 "@ ==> intent_of(lower, text) == (
        ActionView::Command { action: EditCommand::InsertBullet, text: Some(title) }),
{
    reveal_strlit("heading ");
    reveal_strlit("標題 ");
    reveal_strlit("标题 ");
    reveal_strlit("bullet ");
    reveal_strlit("項目 ");
    reveal_strlit("列表 ");
    assert("heading "@.len() == 8 && "heading "@[0] == 'h');
    assert("標題 "@.len() == 3 && "標題 "@[0] == '標');
    assert("标题 "@.len() == 3 && "标题 "@[0] == '标');
    assert("bullet "@.len() == 7 && "bullet "@[0] == 'b');
    assert("項目 "@.len() == 3 && "項目 "@[0] == '項');
    assert("列表 "@.len() == 3 && "列表 "@[0] == '列');
    let rest = left + title + right;
    let p = word + left + title + right;
    law_trimming_is_exact(left, title, right, CharClass::Whitespace);
    assert(p =~= word + rest);
    if word == "heading "@ || word == "標題 "@ || word == "标题 "@ || word == "bullet "@ || word
        == "項目 "@ || word == "列表 "@ {
        assert(p[0] == word[0]);
        law_trimming_is_exact(before, p, behind, CharClass::CommandPunctuation);
        lemma_phrases_differ(p);
        lemma_behind_prefix(p, word, rest);
        lemma_prefix_starts("heading "@, p);
        lemma_prefix_starts("標題 "@, p);
        lemma_prefix_starts("标题 "@, p);
        lemma_prefix_starts("bullet "@, p);
        lemma_prefix_starts("項目 "@, p);
        lemma_prefix_starts("列表 "@, p);
    }
}

/// A text starts with the first character of what it starts with.
proof fn lemma_prefix_starts(prefix: Seq<char>, p: Seq<char>)
    requires
        prefix.len() > 0,
    ensures
        prefix.is_prefix_of(p) ==> p.len() > 0 && p[0] == prefix[0],
{
    if prefix.is_prefix_of(p) {
        assert(p.subrange(0, prefix.len() as int)[0] == p[0]);
    }
}

/// Every other utterance is typed: as it was spoken, without the white space around it.
pub proof fn law_everything_else_is_dictated(
    lower: Seq<char>,
    text: Seq<char>,
    before: Seq<char>,
    p: Seq<char>,
    behind: Seq<char>,
    left: Seq<char>,
    spoken: Seq<char>,
    right: Seq<char>,
)
    requires
        lower == before + p + behind,
        all_in(before, CharClass::CommandPunctuation),
        all_in(behind, CharClass::CommandPunctuation),
        p.len() > 0 ==> !CharClass::CommandPunctuation.has(p[0])
            && !CharClass::CommandPunctuation.has(p.last()),
        text == left + spoken + right,
        all_in(left, CharClass::Whitespace),
        all_in(right, CharClass::Whitespace),
        spoken.len() > 0 ==> !is_whitespace(spoken[0]) && !is_whitespace(spoken.last()),
        p != "new paragraph"@,
        p != "new line"@,
        p != "換行"@,
        p != "换行"@,
        p != "另起一段"@,
        p != "下一段"@,
        p != "delete last sentence"@,
        p != "delete sentence"@,
        p != "刪除最後一句"@,
        p != "删除最后一句"@,
        p != "刪掉最後一句"@,
        p != "删掉最后一句"@,
        p != "delete last paragraph"@,
        p != "delete paragraph"@,
        p != "刪除最後一段"@,
        p != "删除最后一段"@,
        p != "刪掉最後一段"@,
        p != "删掉最后一段"@,
        p != "undo"@, p != "撤銷"@, p != "撤销"@, p != "復原"@, p != "复原"@,
        p != "redo"@, p != "重做"@,
        p != "clear all"@,
        p != "clear document"@,
        p != "清空"@,
        p != "全部清空"@,
        p != "清空文件"@,
        !"heading "@.is_prefix_of(p) && !"標題 "@.is_prefix_of(p) && !"标题 "@.is_prefix_of(p),
        !"bullet "@.is_prefix_of(p) && !"項目 "@.is_prefix_of(p) && !"列表 "@.is_prefix_of(p),
    ensures
        intent_of(lower, text) == (ActionView::Dictate { text: spoken }),
{
    law_trimming_is_exact(before, p, behind, CharClass::CommandPunctuation);
    law_trimming_is_exact(left, spoken, right, CharClass::Whitespace);
}

/// An utterance is classified by the lower-case form of what is spoken between the white space.
pub proof fn law_utterances_are_compared_in_lower_case(
    text: Seq<char>,
    left: Seq<char>,
    spoken: Seq<char>,
    right: Seq<char>,
)
    requires
        text == left + spoken + right,
        all_in(left, CharClass::Whitespace),
        all_in(right, CharClass::Whitespace),
        spoken.len() > 0 ==> !is_whitespace(spoken[0]) && !is_whitespace(spoken.last()),
    ensures
        spoken_intent(text) == intent_of(lowered(spoken), text),
{
    law_trimming_is_exact(left, spoken, right, CharClass::Whitespace);
}

/// Which utterances are commands: those that are one of the listed phrases, when white space,
/// punctuation and case are left aside, and those that start with one of the words for a heading or
/// a bullet point.  Every other utterance is typed, without the white space around it.
pub proof fn law_which_utterances_are_commands(text: Seq<char>)
    ensures
        ({
            let p = trim_of(lowered(trimmed(text)), CharClass::CommandPunctuation);
            let listed = p == "new paragraph"@
                || p == "new line"@
                || p == "換行"@
                || p == "换行"@
                || p == "另起一段"@
                || p == "下一段"@
                || p == "delete last sentence"@
                || p == "delete sentence"@
                || p == "刪除最後一句"@
                || p == "删除最后一句"@
                || p == "刪掉最後一句"@
                || p == "删掉最后一句"@
                || p == "delete last paragraph"@
                || p == "delete paragraph"@
                || p == "刪除最後一段"@
                || p == "删除最后一段"@
                || p == "刪掉最後一段"@
                || p == "删掉最后一段"@
                || p == "undo"@
                || p == "撤銷"@
                || p == "撤销"@
                || p == "復原"@
                || p == "复原"@
                || p == "redo"@
                || p == "重做"@
                || p == "clear all"@
                || p == "clear document"@
                || p == "清空"@
                || p == "全部清空"@
                || p == "清空文件"@;
            let marked = "heading "@.is_prefix_of(p)
                || "標題 "@.is_prefix_of(p)
                || "标题 "@.is_prefix_of(p)
                || "bullet "@.is_prefix_of(p)
                || "項目 "@.is_prefix_of(p)
                || "列表 "@.is_prefix_of(p);
            &&& listed ==> (spoken_intent(text) matches ActionView::Command {
                text: None,
                action: _,
            })
            &&& !listed && marked ==> (spoken_intent(text) matches ActionView::Command {
                text: Some(_),
                action: EditCommand::InsertHeading | EditCommand::InsertBullet,
            })
            &&& !listed && !marked ==> spoken_intent(text) == (ActionView::Dictate {
                text: trimmed(text),
            })
        }),
{
}

} // verus!
