//! Character-level text operations and the mathematical functions that describe them.
//!
//! A string is modelled by the sequence of its characters.  Everything in this module is
//! stated over `Seq<char>`; byte offsets never appear in a contract.
use vstd::prelude::*;
use vstd::utf8::encode_utf8;

verus! {

broadcast use vstd::seq::group_seq_axioms;

// ---------------------------------------------------------------------------
// Standard-library items
// ---------------------------------------------------------------------------

/// `String::push` appends one character and leaves the rest of the string alone.
pub assume_specification[ String::push ](s: &mut String, c: char)
    ensures
        final(s)@ == old(s)@.push(c),
;

/// The lower-case form of a text, as the Unicode case mapping gives it.
pub uninterp spec fn lowercase(s: Seq<char>) -> Seq<char>;

/// `str::to_lowercase` depends on the text alone.  The letters `A` to `Z` become `a` to `z`, and
/// languages without case are not changed: so in a text of ASCII and Chinese characters nothing
/// else changes.  What the mapping does to other scripts is left to the Unicode tables.
pub assume_specification[ str::to_lowercase ](s: &str) -> (r: String)
    ensures
        r@ == lowercase(s@),
        all_plain_case(s@) ==> r@ == ascii_lowercase(s@),
;

/// Whether a character is an ASCII character, a Chinese character or Chinese punctuation.
pub open spec fn is_plain_case(c: char) -> bool {
    ||| c as u32 <= 0x7f
    ||| '\u{4e00}' <= c <= '\u{9fff}'
    ||| c == '。' || c == '，' || c == '！' || c == '？' || c == '、'
}

/// Whether every character of a text is an ASCII character, a Chinese character or Chinese
/// punctuation.
pub open spec fn all_plain_case(s: Seq<char>) -> bool {
    forall|i: int| 0 <= i < s.len() ==> is_plain_case(#[trigger] s[i])
}

/// The lower-case form of a text, spelled out where it holds ASCII and Chinese characters alone.
pub open spec fn lowered(s: Seq<char>) -> Seq<char> {
    if all_plain_case(s) {
        ascii_lowercase(s)
    } else {
        lowercase(s)
    }
}

/// The upper-case form of a text, as the Unicode case mapping gives it.
pub uninterp spec fn uppercase(s: Seq<char>) -> Seq<char>;

/// `str::to_uppercase` depends on the text alone.  The letters `a` to `z` become `A` to `Z`, and
/// scripts without case are not changed: so in a text of ASCII and Chinese characters nothing
/// else changes.  What the mapping does to other scripts is left to the Unicode tables.
pub assume_specification[ str::to_uppercase ](s: &str) -> (r: String)
    ensures
        r@ == uppercase(s@),
        all_plain_case(s@) ==> r@ == ascii_uppercase(s@),
;

/// The upper-case form of a text, spelled out where it holds ASCII and Chinese characters alone.
pub open spec fn uppered(s: Seq<char>) -> Seq<char> {
    if all_plain_case(s) {
        ascii_uppercase(s)
    } else {
        uppercase(s)
    }
}

/// The lower-case form of an ASCII character.
pub open spec fn ascii_lower(c: char) -> char {
    if 'A' as u32 <= c as u32 <= 'Z' as u32 {
        ((c as u32 + 32) as u32) as char
    } else {
        c
    }
}

/// The upper-case form of an ASCII character.
pub open spec fn ascii_upper(c: char) -> char {
    if 'a' as u32 <= c as u32 <= 'z' as u32 {
        ((c as u32 - 32) as u32) as char
    } else {
        c
    }
}

/// A text with its ASCII letters in lower case.
pub open spec fn ascii_lowercase(s: Seq<char>) -> Seq<char> {
    s.map_values(|c: char| ascii_lower(c))
}

/// A text with its ASCII letters in upper case.
pub open spec fn ascii_uppercase(s: Seq<char>) -> Seq<char> {
    s.map_values(|c: char| ascii_upper(c))
}

// ---------------------------------------------------------------------------
// Character classes
// ---------------------------------------------------------------------------

/// The characters with the Unicode property `White_Space`.
pub open spec fn is_whitespace(c: char) -> bool {
    ||| '\u{9}' <= c <= '\u{d}'
    ||| c == '\u{20}'
    ||| c == '\u{85}'
    ||| c == '\u{a0}'
    ||| c == '\u{1680}'
    ||| '\u{2000}' <= c <= '\u{200a}'
    ||| c == '\u{2028}'
    ||| c == '\u{2029}'
    ||| c == '\u{202f}'
    ||| c == '\u{205f}'
    ||| c == '\u{3000}'
}

/// The ASCII punctuation characters.
pub open spec fn is_ascii_punctuation(c: char) -> bool {
    ||| '!' <= c <= '/'
    ||| ':' <= c <= '@'
    ||| '[' <= c <= '`'
    ||| '{' <= c <= '~'
}

/// The ASCII decimal digits.
pub open spec fn is_digit(c: char) -> bool {
    '0' <= c <= '9'
}

/// A set of characters that can be trimmed off a text.
#[derive(Debug, Clone, Copy, PartialEq, Eq, Structural)]
pub enum CharClass {
    /// White space.
    Whitespace,
    /// The punctuation that may surround a spoken command, in English or Chinese.
    CommandPunctuation,
    /// The double quote.
    Quote,
    /// The forward slash.
    Slash,
    /// The dot.
    Dot,
    /// ASCII punctuation and white space together.
    NoSpeech,
    /// The characters that end a sentence, in English or Chinese.
    SentenceEnd,
}

impl CharClass {
    /// Whether the class holds a character.
    pub open spec fn has(self, c: char) -> bool {
        match self {
            CharClass::Whitespace => is_whitespace(c),
            CharClass::CommandPunctuation => is_ascii_punctuation(c) || c == '。' || c == '，'
                || c == '！' || c == '？' || c == '、',
            CharClass::Quote => c == '"',
            CharClass::Slash => c == '/',
            CharClass::Dot => c == '.',
            CharClass::NoSpeech => is_ascii_punctuation(c) || is_whitespace(c),
            CharClass::SentenceEnd => c == '.' || c == '!' || c == '?' || c == '。' || c == '！'
                || c == '？',
        }
    }

    /// Tests whether the class holds a character.
    pub fn contains(&self, c: char) -> (r: bool)
        ensures
            r == self.has(c),
    {
        match self {
            CharClass::Whitespace => whitespace(c),
            CharClass::CommandPunctuation => ascii_punctuation(c) || c == '。' || c == '，' || c
                == '！' || c == '？' || c == '、',
            CharClass::Quote => c == '"',
            CharClass::Slash => c == '/',
            CharClass::Dot => c == '.',
            CharClass::NoSpeech => ascii_punctuation(c) || whitespace(c),
            CharClass::SentenceEnd => c == '.' || c == '!' || c == '?' || c == '。' || c == '！'
                || c == '？',
        }
    }
}

/// Tests for white space.
pub fn whitespace(c: char) -> (r: bool)
    ensures
        r == is_whitespace(c),
{
    ('\u{9}' <= c && c <= '\u{d}') || c == '\u{20}' || c == '\u{85}' || c == '\u{a0}' || c
        == '\u{1680}' || ('\u{2000}' <= c && c <= '\u{200a}') || c == '\u{2028}' || c
        == '\u{2029}' || c == '\u{202f}' || c == '\u{205f}' || c == '\u{3000}'
}

/// Tests for ASCII punctuation.
pub fn ascii_punctuation(c: char) -> (r: bool)
    ensures
        r == is_ascii_punctuation(c),
{
    ('!' <= c && c <= '/') || (':' <= c && c <= '@') || ('[' <= c && c <= '`') || ('{' <= c && c
        <= '~')
}

// ---------------------------------------------------------------------------
// Reading, comparing, trimming
// ---------------------------------------------------------------------------

/// The characters of a string slice, in order.
pub fn chars_of(s: &str) -> (v: Vec<char>)
    ensures
        v@ == s@,
{
    let mut v: Vec<char> = Vec::new();
    for c in it: s.chars()
        invariant
            v@ == it.seq().take(it.index() as int),
            it.seq() == s@,
    {
        v.push(c);
    }
    v
}

/// Tests whether two texts are the same.
pub fn same(a: &str, b: &str) -> (r: bool)
    ensures
        r == (a@ == b@),
{
    a.to_owned() == b.to_owned()
}

/// A text without the characters of a class at its end.
pub open spec fn trim_end_of(s: Seq<char>, class: CharClass) -> Seq<char>
    decreases s.len(),
{
    if s.len() > 0 && class.has(s.last()) {
        trim_end_of(s.drop_last(), class)
    } else {
        s
    }
}

/// A text without the characters of a class at its start.
pub open spec fn trim_start_of(s: Seq<char>, class: CharClass) -> Seq<char>
    decreases s.len(),
{
    if s.len() > 0 && class.has(s[0]) {
        trim_start_of(s.skip(1), class)
    } else {
        s
    }
}

/// A text without the characters of a class at either end.
pub open spec fn trim_of(s: Seq<char>, class: CharClass) -> Seq<char> {
    trim_end_of(trim_start_of(s, class), class)
}

/// A text without the white space at either end.
pub open spec fn trimmed(s: Seq<char>) -> Seq<char> {
    trim_of(s, CharClass::Whitespace)
}

/// Removes the characters of a class from the end of a text.
pub fn trim_end<'a>(s: &'a str, class: CharClass) -> (r: &'a str)
    ensures
        r@ == trim_end_of(s@, class),
{
    let v: Vec<char> = chars_of(s);
    let mut end: usize = v.len();
    assert(v@.take(end as int) =~= v@);
    while end > 0 && class.contains(v[end - 1])
        invariant
            end <= v@.len(),
            v@ == s@,
            trim_end_of(v@.take(end as int), class) == trim_end_of(v@, class),
        decreases end,
    {
        assert(v@.take(end as int).drop_last() =~= v@.take(end - 1));
        end = end - 1;
    }
    assert(s@.subrange(0, end as int) =~= v@.take(end as int));
    s.substring_char(0, end)
}

/// What is left after trimming the end is a prefix.
pub proof fn lemma_trim_end_is_prefix(s: Seq<char>, class: CharClass)
    ensures
        trim_end_of(s, class).is_prefix_of(s),
        trim_end_of(s, class) == s.take(trim_end_of(s, class).len() as int),
    decreases s.len(),
{
    let t = trim_end_of(s, class);
    if s.len() > 0 && class.has(s.last()) {
        lemma_trim_end_is_prefix(s.drop_last(), class);
    }
    assert(t =~= s.take(t.len() as int));
    assert(t =~= s.subrange(0, t.len() as int));
}

/// Removes the characters of a class from both ends of a text.
pub fn trim<'a>(s: &'a str, class: CharClass) -> (r: &'a str)
    ensures
        r@ == trim_of(s@, class),
{
    let v: Vec<char> = chars_of(s);
    let mut start: usize = 0;
    assert(v@.skip(0) =~= v@);
    while start < v.len() && class.contains(v[start])
        invariant
            start <= v@.len(),
            v@ == s@,
            trim_start_of(v@.skip(start as int), class) == trim_start_of(v@, class),
        decreases v@.len() - start,
    {
        assert(v@.skip(start as int).skip(1) =~= v@.skip(start + 1));
        start = start + 1;
    }
    let rest: &str = s.substring_char(start, v.len());
    assert(rest@ =~= v@.skip(start as int));
    trim_end(rest, class)
}

/// What is left of a text behind a prefix, or `None` where it does not start with it.
pub fn strip_prefix<'a>(s: &'a str, prefix: &str) -> (r: Option<&'a str>)
    ensures
        match r {
            Some(rest) => s@ == prefix@ + rest@,
            None => !prefix@.is_prefix_of(s@),
        },
{
    let n: usize = prefix.unicode_len();
    let m: usize = s.unicode_len();
    if n > m {
        return None;
    }
    if same(s.substring_char(0, n), prefix) {
        let rest: &str = s.substring_char(n, m);
        assert(s@ =~= prefix@ + rest@);
        Some(rest)
    } else {
        assert(!prefix@.is_prefix_of(s@)) by {
            if prefix@.is_prefix_of(s@) {
                assert(s@.subrange(0, n as int) =~= prefix@);
            }
        }
        None
    }
}

/// Whether every character of a text is in a class.
pub open spec fn all_in(s: Seq<char>, class: CharClass) -> bool {
    forall|i: int| 0 <= i < s.len() ==> class.has(#[trigger] s[i])
}

/// Tests whether every character of a text is in a class.
pub fn all_chars_in(s: &str, class: CharClass) -> (r: bool)
    ensures
        r == all_in(s@, class),
{
    let v: Vec<char> = chars_of(s);
    let mut i: usize = 0;
    while i < v.len()
        invariant
            i <= v@.len(),
            v@ == s@,
            forall|j: int| 0 <= j < i ==> class.has(#[trigger] s@[j]),
        decreases v@.len() - i,
    {
        if !class.contains(v[i]) {
            assert(!class.has(s@[i as int]));
            return false;
        }
        i = i + 1;
    }
    true
}

/// The place of the last character of a class in a text, or -1 where there is none.
pub open spec fn last_index_in(s: Seq<char>, class: CharClass) -> int
    decreases s.len(),
{
    if s.len() == 0 {
        -1
    } else if class.has(s.last()) {
        s.len() - 1
    } else {
        last_index_in(s.drop_last(), class)
    }
}

/// `last_index_in` is the greatest place that holds a character of the class.
pub proof fn lemma_last_index_in(s: Seq<char>, class: CharClass)
    ensures
        -1 <= last_index_in(s, class) < s.len(),
        last_index_in(s, class) >= 0 ==> class.has(s[last_index_in(s, class)]),
        forall|j: int| last_index_in(s, class) < j < s.len() ==> !class.has(#[trigger] s[j]),
    decreases s.len(),
{
    if s.len() > 0 && !class.has(s.last()) {
        lemma_last_index_in(s.drop_last(), class);
        assert forall|j: int| last_index_in(s, class) < j < s.len() implies !class.has(
            #[trigger] s[j],
        ) by {
            if j < s.len() - 1 {
                assert(s.drop_last()[j] == s[j]);
            }
        }
    }
}

/// Finds the last character of a class among the first `n` characters.
pub fn find_last(v: &Vec<char>, n: usize, class: CharClass) -> (r: Option<usize>)
    requires
        n <= v@.len(),
    ensures
        match r {
            Some(i) => i == last_index_in(v@.take(n as int), class),
            None => last_index_in(v@.take(n as int), class) == -1,
        },
{
    let mut i: usize = n;
    while i > 0
        invariant
            i <= n <= v@.len(),
            last_index_in(v@.take(i as int), class) == last_index_in(v@.take(n as int), class),
        decreases i,
    {
        if class.contains(v[i - 1]) {
            return Some(i - 1);
        }
        assert(v@.take(i as int).drop_last() =~= v@.take(i - 1));
        i = i - 1;
    }
    None
}

/// Tests whether a text ends with another.
pub fn ends_with(s: &str, suffix: &str) -> (r: bool)
    ensures
        r == suffix@.is_suffix_of(s@),
{
    let n: usize = suffix.unicode_len();
    let m: usize = s.unicode_len();
    if n > m {
        return false;
    }
    let tail: &str = s.substring_char(m - n, m);
    assert(suffix@.is_suffix_of(s@) ==> tail@ =~= suffix@);
    same(tail, suffix)
}

/// The lower-case form of an ASCII character.
fn to_ascii_lower(c: char) -> (r: char)
    ensures
        r == ascii_lower(c),
{
    if 'A' <= c && c <= 'Z' {
        ((c as u32) as u8 + 32) as char
    } else {
        c
    }
}

/// Tests whether two texts are the same when the case of ASCII letters is ignored.
pub fn same_ignoring_ascii_case(a: &str, b: &str) -> (r: bool)
    ensures
        r == (ascii_lowercase(a@) == ascii_lowercase(b@)),
{
    let x: Vec<char> = chars_of(a);
    let y: Vec<char> = chars_of(b);
    if x.len() != y.len() {
        assert(ascii_lowercase(a@).len() != ascii_lowercase(b@).len());
        return false;
    }
    let mut i: usize = 0;
    while i < x.len()
        invariant
            i <= x@.len() == y@.len(),
            x@ == a@,
            y@ == b@,
            forall|j: int| 0 <= j < i ==> ascii_lower(a@[j]) == ascii_lower(#[trigger] b@[j]),
        decreases x@.len() - i,
    {
        if to_ascii_lower(x[i]) != to_ascii_lower(y[i]) {
            assert(ascii_lowercase(a@)[i as int] != ascii_lowercase(b@)[i as int]);
            return false;
        }
        i = i + 1;
    }
    assert(ascii_lowercase(a@) =~= ascii_lowercase(b@));
    true
}

// ---------------------------------------------------------------------------
// Building
// ---------------------------------------------------------------------------

/// Two texts, one behind the other.
pub fn concat(a: &str, b: &str) -> (r: String)
    ensures
        r@ == a@ + b@,
{
    let mut r: String = a.to_string();
    r.append(b);
    r
}

/// Three texts, one behind the other.
pub fn concat3(a: &str, b: &str, c: &str) -> (r: String)
    ensures
        r@ == a@ + b@ + c@,
{
    let mut r: String = concat(a, b);
    r.append(c);
    r
}

/// An optional text, taken by its characters.
pub open spec fn text_view(s: Option<String>) -> Option<Seq<char>> {
    match s {
        Some(t) => Some(t@),
        None => None,
    }
}

/// The texts of a list, taken by their characters.
pub open spec fn texts(v: Seq<String>) -> Seq<Seq<char>> {
    v.map_values(|s: String| s@)
}

/// The texts of a list of pairs, taken by their characters.
pub open spec fn pairs(v: Seq<(String, String)>) -> Seq<(Seq<char>, Seq<char>)> {
    v.map_values(|p: (String, String)| (p.0@, p.1@))
}

/// Copies a list of texts.
pub fn copy_texts(v: &Vec<String>) -> (r: Vec<String>)
    ensures
        texts(r@) == texts(v@),
{
    let mut r: Vec<String> = Vec::new();
    let mut i: usize = 0;
    while i < v.len()
        invariant
            i <= v@.len(),
            texts(r@) == texts(v@).take(i as int),
        decreases v@.len() - i,
    {
        let ghost before = r@;
        r.push(v[i].clone());
        assert(texts(r@) =~= texts(before).push(v@[i as int]@));
        assert(texts(v@).take(i + 1) =~= texts(v@).take(i as int).push(v@[i as int]@));
        i = i + 1;
    }
    assert(texts(v@).take(i as int) =~= texts(v@));
    r
}

/// The parts of a list one behind the other, with a separator between two of them.
pub open spec fn joined(parts: Seq<Seq<char>>, separator: Seq<char>) -> Seq<char>
    decreases parts.len(),
{
    if parts.len() == 0 {
        Seq::empty()
    } else if parts.len() == 1 {
        parts[0]
    } else {
        joined(parts.drop_last(), separator) + separator + parts.last()
    }
}

/// A text cut to at most `max` characters, the last three of which are dots where it was cut.
/// Where there is no room for three dots, there are as many as fit.
pub open spec fn truncated(s: Seq<char>, max: nat) -> Seq<char> {
    if s.len() <= max {
        s
    } else if max >= 3 {
        s.take(max - 3) + "..."@
    } else {
        "..."@.take(max as int)
    }
}

/// Truncate a string to a maximum length, appending "..." if truncated.
pub fn truncate_str(s: &str, max_len: usize) -> (r: String)
    ensures
        r@ == truncated(s@, max_len as nat),
        r@.len() <= max_len,
{
    proof {
        reveal_strlit("...");
    }
    if s.unicode_len() <= max_len {
        s.to_string()
    } else if max_len >= 3 {
        let head: &str = s.substring_char(0, max_len - 3);
        assert(head@ =~= s@.take(max_len - 3));
        concat(head, "...")
    } else {
        let dots: &str = "...".substring_char(0, max_len);
        assert(dots@ =~= "..."@.take(max_len as int));
        dots.to_string()
    }
}

// ---------------------------------------------------------------------------
// Counting
// ---------------------------------------------------------------------------

/// The number of words of a text: of places where a character that is not white space stands
/// at the start or behind white space.
pub open spec fn words(s: Seq<char>) -> nat
    decreases s.len(),
{
    if s.len() == 0 {
        0
    } else {
        words(s.drop_last()) + if !is_whitespace(s.last()) && (s.len() == 1 || is_whitespace(
            s[s.len() - 2],
        )) {
            1nat
        } else {
            0nat
        }
    }
}

/// Counts the words of a text.
pub fn count_words(s: &str) -> (r: usize)
    ensures
        r == words(s@),
{
    let v: Vec<char> = chars_of(s);
    let mut n: usize = 0;
    let mut i: usize = 0;
    while i < v.len()
        invariant
            i <= v@.len(),
            n == words(v@.take(i as int)),
            n <= i,
        decreases v@.len() - i,
    {
        let starts: bool = !whitespace(v[i]) && (i == 0 || whitespace(v[i - 1]));
        assert(v@.take(i + 1).drop_last() =~= v@.take(i as int));
        if starts {
            n = n + 1;
        }
        i = i + 1;
    }
    assert(v@.take(i as int) =~= s@);
    n
}

// ---------------------------------------------------------------------------
// Numbers
// ---------------------------------------------------------------------------

/// The character for a decimal digit.
pub open spec fn digit_char(d: nat) -> char {
    ((0x30 + d) as u32) as char
}

/// A number in decimal notation.
pub open spec fn decimal(n: nat) -> Seq<char>
    decreases n,
{
    if n < 10 {
        seq![digit_char(n)]
    } else {
        decimal(n / 10).push(digit_char(n % 10))
    }
}

/// Writes a number in decimal notation.
pub fn decimal_string(n: u128) -> (r: String)
    ensures
        r@ == decimal(n as nat),
    decreases n,
{
    let digit: char = (0x30u8 + (n % 10) as u8) as char;
    let mut r: String = if n < 10 {
        String::new()
    } else {
        decimal_string(n / 10)
    };
    r.push(digit);
    assert(n < 10 ==> r@ =~= seq![digit_char(n as nat)]);
    r
}

/// The value of a row of decimal digits.
pub open spec fn digits_value(s: Seq<char>) -> nat
    decreases s.len(),
{
    if s.len() == 0 {
        0
    } else {
        (10 * digits_value(s.drop_last()) + (s.last() as u32 - 0x30)) as nat
    }
}

/// The number that a row of decimal digits denotes, where it is one and its value fits.
pub open spec fn digits_number(s: Seq<char>) -> Option<u32> {
    if s.len() > 0 && (forall|i: int| 0 <= i < s.len() ==> is_digit(#[trigger] s[i]))
        && digits_value(s) <= u32::MAX {
        Some(digits_value(s) as u32)
    } else {
        None
    }
}

/// The number that a text denotes: decimal digits, with an optional plus sign before them, and
/// a value that fits.
pub open spec fn unsigned_number(s: Seq<char>) -> Option<u32> {
    if s.len() > 1 && s[0] == '+' {
        digits_number(s.skip(1))
    } else {
        digits_number(s)
    }
}

/// A longer row of digits has no smaller value.
proof fn lemma_digits_value_grows(s: Seq<char>, i: int)
    requires
        0 <= i <= s.len(),
        forall|j: int| 0 <= j < s.len() ==> is_digit(#[trigger] s[j]),
    ensures
        digits_value(s.take(i)) <= digits_value(s),
    decreases s.len() - i,
{
    if i < s.len() {
        lemma_digits_value_grows(s, i + 1);
        assert(s.take(i + 1).drop_last() =~= s.take(i));
        assert(is_digit(s[i]));
    } else {
        assert(s.take(i) =~= s);
    }
}

/// Reads an unsigned number from a text.
pub fn parse_unsigned(s: &str) -> (r: Option<u32>)
    ensures
        r == unsigned_number(s@),
{
    let v: Vec<char> = chars_of(s);
    let start: usize = if v.len() > 1 && v[0] == '+' {
        1
    } else {
        0
    };
    let ghost digits = if s@.len() > 1 && s@[0] == '+' {
        s@.skip(1)
    } else {
        s@
    };
    assert(digits =~= v@.skip(start as int));
    if start == v.len() {
        return None;
    }
    let mut value: u64 = 0;
    let mut i: usize = start;
    assert(digits.take(0) =~= Seq::<char>::empty());
    while i < v.len()
        invariant
            start <= i <= v@.len(),
            digits == v@.skip(start as int),
            digits.len() == v@.len() - start,
            forall|j: int| 0 <= j < i - start ==> is_digit(#[trigger] digits[j]),
            value == digits_value(digits.take(i - start)),
            value <= u32::MAX,
            unsigned_number(s@) == digits_number(digits),
        decreases v@.len() - i,
    {
        let c: char = v[i];
        assert(digits[i - start] == c);
        if !('0' <= c && c <= '9') {
            assert(!is_digit(digits[i - start]));
            return None;
        }
        value = 10 * value + ((c as u32) - 0x30) as u64;
        assert(digits.take(i - start + 1).drop_last() =~= digits.take(i - start));
        if value > u32::MAX as u64 {
            proof {
                if forall|j: int| 0 <= j < digits.len() ==> is_digit(#[trigger] digits[j]) {
                    lemma_digits_value_grows(digits, i - start + 1);
                }
            }
            return None;
        }
        i = i + 1;
    }
    assert(digits.take(i - start) =~= digits);
    Some(value as u32)
}

// ---------------------------------------------------------------------------
// Byte lengths
// ---------------------------------------------------------------------------

/// The number of bytes that a character takes in UTF-8.
pub open spec fn utf8_width(c: char) -> nat {
    if c as u32 <= 0x7f {
        1
    } else if c as u32 <= 0x7ff {
        2
    } else if c as u32 <= 0xffff {
        3
    } else {
        4
    }
}

/// The number of bytes that a text takes in UTF-8.
pub open spec fn byte_len(s: Seq<char>) -> nat {
    encode_utf8(s).len()
}

/// The bytes of a text are those of its first character and those of the rest.
pub proof fn lemma_byte_len_first(s: Seq<char>)
    requires
        s.len() > 0,
    ensures
        byte_len(s) == utf8_width(s[0]) + byte_len(s.skip(1)),
{
    assert(s.drop_first() =~= s.skip(1));
    assert(vstd::utf8::is_scalar(s[0] as u32)) by {
        vstd::utf8::char_is_scalar(s[0]);
    }
}

/// The longest end of a text that takes at most `limit` bytes.
pub open spec fn tail_within(s: Seq<char>, limit: nat) -> Seq<char>
    decreases s.len(),
{
    if byte_len(s) <= limit || s.len() == 0 {
        s
    } else {
        tail_within(s.skip(1), limit)
    }
}

/// An end of a text takes no more bytes than the text.
proof fn lemma_byte_len_skip(s: Seq<char>, i: int)
    requires
        0 <= i <= s.len(),
    ensures
        byte_len(s.skip(i)) <= byte_len(s),
    decreases i,
{
    if i > 0 {
        lemma_byte_len_first(s);
        lemma_byte_len_skip(s.skip(1), i - 1);
        assert(s.skip(1).skip(i - 1) =~= s.skip(i));
    } else {
        assert(s.skip(0) =~= s);
    }
}

/// The end of a text that fits while the next longer one does not is the longest that fits.
proof fn lemma_tail_within(s: Seq<char>, limit: nat, i: int)
    requires
        0 <= i <= s.len(),
        byte_len(s.skip(i)) <= limit,
        i > 0 ==> byte_len(s.skip(i - 1)) > limit,
    ensures
        tail_within(s, limit) == s.skip(i),
    decreases i,
{
    if i == 0 {
        assert(s.skip(0) =~= s);
    } else {
        lemma_byte_len_skip(s, i - 1);
        assert(s.skip(1).skip(i - 1) =~= s.skip(i));
        if i > 1 {
            assert(s.skip(1).skip(i - 2) =~= s.skip(i - 1));
        }
        lemma_tail_within(s.skip(1), limit, i - 1);
    }
}

/// The number of bytes that a character takes in UTF-8.
fn width_of(c: char) -> (r: usize)
    ensures
        r == utf8_width(c),
{
    let n: u32 = c as u32;
    if n <= 0x7f {
        1
    } else if n <= 0x7ff {
        2
    } else if n <= 0xffff {
        3
    } else {
        4
    }
}

/// The longest end of a text that takes at most `limit` bytes.
pub fn last_bytes<'a>(s: &'a str, limit: usize) -> (r: &'a str)
    ensures
        r@ == tail_within(s@, limit as nat),
{
    let v: Vec<char> = chars_of(s);
    let mut used: usize = 0;
    let mut i: usize = v.len();
    assert(v@.skip(i as int) =~= Seq::<char>::empty());
    while i > 0 && width_of(v[i - 1]) <= limit - used
        invariant
            i <= v@.len(),
            used <= limit,
            used == byte_len(v@.skip(i as int)),
        decreases i,
    {
        proof {
            lemma_byte_len_first(v@.skip(i - 1));
            assert(v@.skip(i - 1).skip(1) =~= v@.skip(i as int));
        }
        used = used + width_of(v[i - 1]);
        i = i - 1;
    }
    proof {
        if i > 0 {
            lemma_byte_len_first(v@.skip(i - 1));
            assert(v@.skip(i - 1).skip(1) =~= v@.skip(i as int));
        }
        lemma_tail_within(v@, limit as nat, i as int);
    }
    let r: &str = s.substring_char(i, v.len());
    assert(r@ =~= v@.skip(i as int));
    r
}

} // verus!
