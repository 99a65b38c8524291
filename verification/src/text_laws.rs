//! What holds of the operations on texts, whatever the texts are.
use crate::text::{
    all_in, all_plain_case, ascii_lower, ascii_lowercase, ascii_upper, decimal, digits_value,
    is_ascii_punctuation, is_digit, is_whitespace, joined, lemma_trim_end_is_prefix, lowercase,
    lowered, tail_within, trim_end_of, trim_of, trim_start_of, truncated, unsigned_number,
    uppercase, uppered, words, CharClass,
};
use vstd::prelude::*;
use vstd::utf8::encode_utf8;

verus! {

// ---------------------------------------------------------------------------
// Characters
// ---------------------------------------------------------------------------

/// Which characters are trimmed off or looked for.
pub proof fn law_the_classes_of_characters(c: char)
    ensures
        CharClass::Whitespace.has(c) == is_whitespace(c),
        CharClass::CommandPunctuation.has(c) == (is_ascii_punctuation(c) || seq![
            '。',
            '，',
            '！',
            '？',
            '、',
        ].contains(c)),
        CharClass::NoSpeech.has(c) == (is_ascii_punctuation(c) || is_whitespace(c)),
        CharClass::SentenceEnd.has(c) == seq!['.', '!', '?', '。', '！', '？'].contains(c),
        CharClass::Quote.has(c) == (c == '"'),
        CharClass::Slash.has(c) == (c == '/'),
        CharClass::Dot.has(c) == (c == '.'),
{
    let marks = seq!['。', '，', '！', '？', '、'];
    assert(marks[0] == '。' && marks[1] == '，' && marks[2] == '！' && marks[3] == '？' && marks[4]
        == '、');
    let ends = seq!['.', '!', '?', '。', '！', '？'];
    assert(ends[0] == '.' && ends[1] == '!' && ends[2] == '?' && ends[3] == '。' && ends[4] == '！'
        && ends[5] == '？');
}

/// Letters change their case by their place in the alphabet, and nothing else changes.
pub proof fn law_the_case_of_letters(c: char)
    ensures
        'A' <= c <= 'Z' ==> ascii_lower(c) as int - 'a' as int == c as int - 'A' as int,
        !('A' <= c <= 'Z') ==> ascii_lower(c) == c,
        'a' <= c <= 'z' ==> ascii_upper(c) as int - 'A' as int == c as int - 'a' as int,
        !('a' <= c <= 'z') ==> ascii_upper(c) == c,
{
}

/// The other case of a text of ASCII and Chinese characters has the same characters at the same
/// places, but for the case of letters.
pub proof fn law_the_case_of_texts(s: Seq<char>)
    ensures
        all_plain_case(s) ==> lowered(s).len() == s.len() && uppered(s).len() == s.len(),
        all_plain_case(s) ==> forall|i: int|
            0 <= i < s.len() ==> {
                let c = #[trigger] lowered(s)[i];
                if 'A' <= s[i] <= 'Z' {
                    c as int - 'a' as int == s[i] as int - 'A' as int
                } else {
                    c == s[i]
                }
            },
        all_plain_case(s) ==> forall|i: int|
            0 <= i < s.len() ==> {
                let c = #[trigger] uppered(s)[i];
                if 'a' <= s[i] <= 'z' {
                    c as int - 'A' as int == s[i] as int - 'a' as int
                } else {
                    c == s[i]
                }
            },
        !all_plain_case(s) ==> lowered(s) == lowercase(s) && uppered(s) == uppercase(s),
        ascii_lowercase(s).len() == s.len(),
        forall|i: int|
            0 <= i < s.len() ==> #[trigger] ascii_lowercase(s)[i] == ascii_lower(s[i]),
{
    if all_plain_case(s) {
        assert forall|i: int| 0 <= i < s.len() implies ({
            let c = #[trigger] lowered(s)[i];
            if 'A' <= s[i] <= 'Z' {
                c as int - 'a' as int == s[i] as int - 'A' as int
            } else {
                c == s[i]
            }
        }) by {
            law_the_case_of_letters(s[i]);
            assert(lowered(s)[i] == ascii_lower(s[i]));
        }
        assert forall|i: int| 0 <= i < s.len() implies ({
            let c = #[trigger] uppered(s)[i];
            if 'a' <= s[i] <= 'z' {
                c as int - 'A' as int == s[i] as int - 'a' as int
            } else {
                c == s[i]
            }
        }) by {
            law_the_case_of_letters(s[i]);
            assert(uppered(s)[i] == ascii_upper(s[i]));
        }
    }
}

// ---------------------------------------------------------------------------
// Trimming
// ---------------------------------------------------------------------------

/// Trimming does not see one more character of the class at the end.
pub proof fn lemma_trim_push(s: Seq<char>, c: char, class: CharClass)
    requires
        class.has(c),
    ensures
        trim_of(s.push(c), class) == trim_of(s, class),
    decreases s.len(),
{
    let t = s.push(c);
    if s.len() == 0 {
        assert(t.skip(1) =~= Seq::<char>::empty());
        assert(s =~= Seq::<char>::empty());
        assert(trim_start_of(t, class) == trim_start_of(t.skip(1), class));
        assert(trim_start_of(Seq::<char>::empty(), class) =~= Seq::<char>::empty());
    } else if class.has(s[0]) {
        assert(t.skip(1) =~= s.skip(1).push(c));
        lemma_trim_push(s.skip(1), c, class);
    } else {
        assert(t[0] == s[0]);
        assert(t.drop_last() =~= s);
        assert(trim_end_of(t, class) == trim_end_of(t.drop_last(), class));
    }
}

/// Trimming does not see one more character of the class at the start.
pub proof fn lemma_trim_push_front(s: Seq<char>, c: char, class: CharClass)
    requires
        class.has(c),
    ensures
        trim_of(seq![c] + s, class) == trim_of(s, class),
{
    let t = seq![c] + s;
    assert(t.skip(1) =~= s);
    assert(trim_start_of(t, class) == trim_start_of(t.skip(1), class));
}

/// Trimming does not see a row of characters of the class at the end.
pub proof fn lemma_trim_behind(s: Seq<char>, more: Seq<char>, class: CharClass)
    requires
        all_in(more, class),
    ensures
        trim_of(s + more, class) == trim_of(s, class),
    decreases more.len(),
{
    if more.len() == 0 {
        assert(s + more =~= s);
    } else {
        let front = more.drop_last();
        assert forall|i: int| 0 <= i < front.len() implies class.has(#[trigger] front[i]) by {
            assert(class.has(more[i]));
        }
        lemma_trim_behind(s, front, class);
        assert(class.has(more[more.len() - 1]));
        lemma_trim_push(s + front, more.last(), class);
        assert(s + more =~= (s + front).push(more.last()));
    }
}

/// Trimming does not see a row of characters of the class at the start.
pub proof fn lemma_trim_before(more: Seq<char>, s: Seq<char>, class: CharClass)
    requires
        all_in(more, class),
    ensures
        trim_of(more + s, class) == trim_of(s, class),
    decreases more.len(),
{
    if more.len() == 0 {
        assert(more + s =~= s);
    } else {
        let rest = more.skip(1);
        assert forall|i: int| 0 <= i < rest.len() implies class.has(#[trigger] rest[i]) by {
            assert(class.has(more[i + 1]));
        }
        lemma_trim_before(rest, s, class);
        assert(class.has(more[0]));
        lemma_trim_push_front(rest + s, more[0], class);
        assert(more + s =~= seq![more[0]] + (rest + s));
    }
}

/// Trimming makes no text longer.
pub proof fn lemma_trim_len(s: Seq<char>, class: CharClass)
    ensures
        trim_start_of(s, class).len() <= s.len(),
        trim_of(s, class).len() <= trim_start_of(s, class).len(),
    decreases s.len(),
{
    if s.len() > 0 && class.has(s[0]) {
        lemma_trim_len(s.skip(1), class);
    }
    lemma_trim_end_is_prefix(trim_start_of(s, class), class);
}

/// A text that trimming leaves as it is has no character of the class at its ends.
pub proof fn lemma_trimmed_ends(s: Seq<char>, class: CharClass)
    requires
        trim_of(s, class) == s,
        s.len() > 0,
    ensures
        !class.has(s[0]),
        !class.has(s.last()),
{
    if class.has(s[0]) {
        lemma_trim_len(s, class);
        lemma_trim_len(s.skip(1), class);
        assert(false);
    }
    if class.has(s.last()) {
        lemma_trim_end_is_prefix(s.drop_last(), class);
        assert(false);
    }
}

/// What stands between characters of a class, and neither starts nor ends with one, is what
/// trimming leaves.
pub proof fn law_trimming_is_exact(
    before: Seq<char>,
    part: Seq<char>,
    behind: Seq<char>,
    class: CharClass,
)
    requires
        all_in(before, class),
        all_in(behind, class),
        part.len() > 0 ==> !class.has(part[0]) && !class.has(part.last()),
    ensures
        trim_of(before + part + behind, class) == part,
{
    assert(before + part + behind =~= before + (part + behind));
    lemma_trim_before(before, part + behind, class);
    lemma_trim_behind(part, behind, class);
}

/// The same of trimming at the end alone.
pub proof fn law_trimming_the_end_is_exact(part: Seq<char>, behind: Seq<char>, class: CharClass)
    requires
        all_in(behind, class),
        part.len() > 0 ==> !class.has(part.last()),
    ensures
        trim_end_of(part + behind, class) == part,
    decreases behind.len(),
{
    if behind.len() == 0 {
        assert(part + behind =~= part);
    } else {
        let front = behind.drop_last();
        assert forall|i: int| 0 <= i < front.len() implies class.has(#[trigger] front[i]) by {
            assert(class.has(behind[i]));
        }
        assert(class.has(behind[behind.len() - 1]));
        assert((part + behind).drop_last() =~= part + front);
        law_trimming_the_end_is_exact(part, front, class);
    }
}

proof fn lemma_trim_start_parts(s: Seq<char>, class: CharClass)
    ensures
        ({
            let t = trim_start_of(s, class);
            &&& t.len() <= s.len()
            &&& t == s.skip(s.len() - t.len())
            &&& all_in(s.take(s.len() - t.len()), class)
            &&& t.len() > 0 ==> !class.has(t[0])
        }),
    decreases s.len(),
{
    if s.len() > 0 && class.has(s[0]) {
        let rest = s.skip(1);
        lemma_trim_start_parts(rest, class);
        let t = trim_start_of(s, class);
        let k = s.len() - t.len();
        assert(t =~= s.skip(k));
        assert forall|i: int| 0 <= i < k implies class.has(#[trigger] s.take(k)[i]) by {
            if i > 0 {
                assert(rest.take(k - 1)[i - 1] == s[i]);
            }
        }
    } else {
        assert(s.skip(0) =~= s);
    }
}

proof fn lemma_trim_end_parts(s: Seq<char>, class: CharClass)
    ensures
        ({
            let t = trim_end_of(s, class);
            &&& t.len() <= s.len()
            &&& t == s.take(t.len() as int)
            &&& all_in(s.skip(t.len() as int), class)
            &&& t.len() > 0 ==> !class.has(t.last())
        }),
    decreases s.len(),
{
    lemma_trim_end_is_prefix(s, class);
    if s.len() > 0 && class.has(s.last()) {
        let front = s.drop_last();
        lemma_trim_end_parts(front, class);
        let n = trim_end_of(s, class).len() as int;
        assert forall|i: int| 0 <= i < s.len() - n implies class.has(#[trigger] s.skip(n)[i]) by {
            if i < front.len() - n {
                assert(front.skip(n)[i] == s[n + i]);
            }
        }
    }
}

/// Trimming takes nothing away but characters of the class at the ends, and leaves none there.
pub proof fn law_trimming_takes_only_the_ends(s: Seq<char>, class: CharClass)
    ensures
        exists|before: Seq<char>, behind: Seq<char>|
            all_in(before, class) && all_in(behind, class) && s == #[trigger] (before + trim_of(
                s,
                class,
            ) + behind),
        trim_of(s, class).len() > 0 ==> !class.has(trim_of(s, class)[0]) && !class.has(
            trim_of(s, class).last(),
        ),
{
    lemma_trim_start_parts(s, class);
    let t = trim_start_of(s, class);
    lemma_trim_end_parts(t, class);
    let r = trim_of(s, class);
    let before = s.take(s.len() - t.len());
    let behind = t.skip(r.len() as int);
    assert(s =~= before + r + behind);
    if r.len() > 0 {
        assert(r[0] == t[0]);
    }
}

// ---------------------------------------------------------------------------
// Joining and cutting
// ---------------------------------------------------------------------------

/// Joining two lists is joining their texts, with the separator between them.
pub proof fn law_joining(a: Seq<Seq<char>>, b: Seq<Seq<char>>, separator: Seq<char>)
    ensures
        joined(Seq::empty(), separator) == Seq::<char>::empty(),
        a.len() == 1 ==> joined(a, separator) == a[0],
        a.len() > 0 && b.len() > 0 ==> joined(a + b, separator) == joined(a, separator) + separator
            + joined(b, separator),
    decreases b.len(),
{
    if a.len() > 0 && b.len() > 0 {
        let all = a + b;
        let front = b.drop_last();
        assert(all.drop_last() =~= a + front);
        assert(all.last() == b.last());
        if b.len() == 1 {
            assert(a + front =~= a);
        } else {
            law_joining(a, front, separator);
            assert(joined(all, separator) =~= joined(a, separator) + separator + (joined(
                front,
                separator,
            ) + separator + b.last()));
        }
    }
}

/// A text that fits is shown as it is; one that does not is cut to the length that there is: its
/// first characters and three dots, or dots alone where there is no room for more.
pub proof fn law_cutting(s: Seq<char>, max: nat)
    ensures
        s.len() <= max ==> truncated(s, max) == s,
        s.len() > max ==> truncated(s, max).len() == max,
        s.len() > max ==> forall|i: int|
            0 <= i < max ==> #[trigger] truncated(s, max)[i] == if i < max - 3 {
                s[i]
            } else {
                '.'
            },
{
    reveal_strlit("...");
}

/// The end of a text that fits in a number of bytes is the longest one that does.
pub proof fn law_the_longest_end_that_fits(s: Seq<char>, limit: nat, end: Seq<char>)
    ensures
        tail_within(s, limit).is_suffix_of(s),
        encode_utf8(tail_within(s, limit)).len() <= limit,
        end.is_suffix_of(s) && encode_utf8(end).len() <= limit ==> end.len() <= tail_within(
            s,
            limit,
        ).len(),
    decreases s.len(),
{
    if crate::text::byte_len(s) <= limit || s.len() == 0 {
        assert(s.subrange(0, s.len() as int) =~= s);
    } else {
        let rest = s.skip(1);
        law_the_longest_end_that_fits(rest, limit, end);
        let t = tail_within(s, limit);
        assert(rest.subrange(rest.len() - t.len(), rest.len() as int) =~= s.subrange(
            s.len() - t.len(),
            s.len() as int,
        ));
        if end.is_suffix_of(s) && encode_utf8(end).len() <= limit {
            if end.len() == s.len() {
                assert(s.subrange(0, s.len() as int) =~= s);
                assert(end == s);
            } else {
                assert(rest.subrange(rest.len() - end.len(), rest.len() as int) =~= s.subrange(
                    s.len() - end.len(),
                    s.len() as int,
                ));
            }
        }
    }
}

// ---------------------------------------------------------------------------
// Counting and numbers
// ---------------------------------------------------------------------------

/// A text behind white space adds its words to those before it.
pub proof fn law_words_add_up(before: Seq<char>, space: char, text: Seq<char>)
    requires
        is_whitespace(space),
    ensures
        words(before.push(space) + text) == words(before) + words(text),
    decreases text.len(),
{
    let spaced = before.push(space);
    let all = spaced + text;
    if text.len() == 0 {
        assert(all =~= spaced);
        assert(spaced.drop_last() =~= before);
    } else {
        law_words_add_up(before, space, text.drop_last());
        assert(all.drop_last() =~= spaced + text.drop_last());
        assert(all.last() == text.last());
        if text.len() == 1 {
            assert(all[all.len() - 2] == space);
        } else {
            assert(all[all.len() - 2] == text[text.len() - 2]);
        }
    }
}

/// A text without white space is one word, and no text is none.
pub proof fn law_one_word(text: Seq<char>)
    requires
        forall|i: int| 0 <= i < text.len() ==> !is_whitespace(#[trigger] text[i]),
    ensures
        text.len() == 0 ==> words(text) == 0,
        text.len() > 0 ==> words(text) == 1,
    decreases text.len(),
{
    if text.len() > 1 {
        law_one_word(text.drop_last());
        assert(!is_whitespace(text[text.len() - 2]));
    } else if text.len() == 1 {
        assert(text.drop_last() =~= Seq::<char>::empty());
        assert(words(text.drop_last()) == 0);
        assert(!is_whitespace(text[0]));
    }
}

/// A number is written as its tens and then its ones; the ones are the digits from `0` on.
pub proof fn law_decimal_notation(tens: nat, ones: nat)
    requires
        ones < 10,
    ensures
        decimal(ones).len() == 1,
        decimal(ones)[0] as int == '0' as int + ones,
        tens > 0 ==> decimal(10 * tens + ones) == decimal(tens) + decimal(ones),
{
    if tens > 0 {
        let n = 10 * tens + ones;
        assert(n / 10 == tens && n % 10 == ones);
        assert(decimal(n) =~= decimal(tens) + decimal(ones));
    }
}

/// A number is written with digits alone, and their value is the number.
pub proof fn law_the_value_of_digits(n: nat)
    ensures
        decimal(n).len() > 0,
        forall|i: int| 0 <= i < decimal(n).len() ==> '0' <= #[trigger] decimal(n)[i] <= '9',
        (decimal(n).len() > 1) == (n >= 10),
        n > 0 ==> decimal(n)[0] != '0',
        digits_value(decimal(n)) == n,
    decreases n,
{
    if n >= 10 {
        law_the_value_of_digits(n / 10);
        let d = decimal(n);
        assert(d.drop_last() =~= decimal(n / 10));
        assert(n / 10 > 0);
        if n / 10 < 10 {
            assert(decimal(n / 10)[0] != '0');
        }
        assert(d[0] == decimal(n / 10)[0]);
    } else {
        let d = decimal(n);
        assert(d.drop_last() =~= Seq::<char>::empty());
        assert(digits_value(d.drop_last()) == 0);
    }
}

/// One more digit makes the value of a row of digits ten times as large, and adds its own.
pub proof fn law_one_more_digit(s: Seq<char>, c: char)
    requires
        '0' <= c <= '9',
    ensures
        digits_value(Seq::empty()) == 0,
        digits_value(s.push(c)) == 10 * digits_value(s) + (c as int - '0' as int),
{
    assert(s.push(c).drop_last() =~= s);
}

/// A text is read as a number where it is a row of digits, with or without a plus sign, and the
/// value fits; and no other text is.
pub proof fn law_numbers_are_read(s: Seq<char>)
    ensures
        s.len() > 0 && (forall|i: int| 0 <= i < s.len() ==> '0' <= #[trigger] s[i] <= '9') ==> ({
            let expected = if digits_value(s) <= u32::MAX {
                Some(digits_value(s) as u32)
            } else {
                None
            };
            unsigned_number(s) == expected && unsigned_number(seq!['+'] + s) == expected
        }),
        unsigned_number(s) is Some ==> s.len() > 0 && (forall|i: int|
            0 < i < s.len() ==> '0' <= #[trigger] s[i] <= '9') && ('0' <= s[0] <= '9' || (s[0]
            == '+' && s.len() > 1)),
{
    if s.len() > 0 && (forall|i: int| 0 <= i < s.len() ==> '0' <= #[trigger] s[i] <= '9') {
        assert forall|i: int| 0 <= i < s.len() implies is_digit(#[trigger] s[i]) by {}
        let signed = seq!['+'] + s;
        assert(signed.skip(1) =~= s);
        assert('0' <= s[0]);
    }
    if unsigned_number(s) is Some {
        if s.len() > 1 && s[0] == '+' {
            assert forall|i: int| 0 < i < s.len() implies '0' <= #[trigger] s[i] <= '9' by {
                assert(is_digit(s.skip(1)[i - 1]));
            }
        } else {
            assert(is_digit(s[0]));
            assert forall|i: int| 0 < i < s.len() implies '0' <= #[trigger] s[i] <= '9' by {
                assert(is_digit(s[i]));
            }
        }
    }
}

} // verus!
