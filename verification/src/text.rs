//! Text as sequences of characters: trimming, joining, and the
//! normalisation that makes text searchable.

use itertools::Itertools;
use regex::Regex;
use vstd::prelude::*;

verus! {

/// The view of an optional string.
pub open spec fn text_opt(s: Option<String>) -> Option<Seq<char>> {
    match s {
        Some(t) => Some(t@),
        None => None,
    }
}

/// The views of a sequence of string slices.
pub open spec fn texts_of(parts: Seq<&str>) -> Seq<Seq<char>> {
    Seq::new(parts.len(), |i: int| parts[i]@)
}

/// The views of a sequence of strings.
pub open spec fn texts(parts: Seq<String>) -> Seq<Seq<char>> {
    Seq::new(parts.len(), |i: int| parts[i]@)
}

/// The views of a sequence of vectors of characters.
pub open spec fn pieces_of(pieces: Seq<Vec<char>>) -> Seq<Seq<char>> {
    Seq::new(pieces.len(), |i: int| pieces[i]@)
}

/// The characters of `s`, in order.
pub fn chars_of(s: &str) -> (chars: Vec<char>)
    ensures
        chars@ == s@,
{
    let mut chars: Vec<char> = Vec::new();
    for c in it: s.chars()
        invariant
            chars@ == it.seq().take(it.index()),
            it.seq() == s@,
    {
        chars.push(c);
    }
    chars
}

/// `String::push` of the standard library: the character is appended, and
/// nothing else changes.
#[verifier::external_body]
fn push_char(s: &mut String, c: char)
    ensures
        final(s)@ == old(s)@.push(c),
{
    s.push(c)
}

/// The string made of `chars[from..to]`.
pub fn text_between(chars: &Vec<char>, from: usize, to: usize) -> (s: String)
    requires
        from <= to <= chars.len(),
    ensures
        s@ == chars@.subrange(from as int, to as int),
{
    let mut s = String::new();
    let mut i: usize = from;
    while i < to
        invariant
            from <= i <= to <= chars.len(),
            s@ == chars@.subrange(from as int, i as int),
        decreases to - i,
    {
        push_char(&mut s, chars[i]);
        i += 1;
    }
    s
}

/// The characters `chars[from..to]`.
pub fn sub_chars(chars: &Vec<char>, from: usize, to: usize) -> (piece: Vec<char>)
    requires
        from <= to <= chars.len(),
    ensures
        piece@ == chars@.subrange(from as int, to as int),
{
    let mut piece: Vec<char> = Vec::new();
    let mut i: usize = from;
    while i < to
        invariant
            from <= i <= to <= chars.len(),
            piece@ == chars@.subrange(from as int, i as int),
        decreases to - i,
    {
        piece.push(chars[i]);
        i += 1;
    }
    piece
}

/// Whether two string slices hold the same characters.
pub fn same_text(a: &str, b: &str) -> (same: bool)
    ensures
        same == (a@ == b@),
{
    let x = a.to_owned();
    let y = b.to_owned();
    x == y
}

/// Whether two optional strings are both absent or hold the same characters.
pub fn same_text_opt(a: &Option<String>, b: &Option<String>) -> (same: bool)
    ensures
        same == (text_opt(*a) == text_opt(*b)),
{
    match (a, b) {
        (Some(x), Some(y)) => *x == *y,
        (None, None) => true,
        _ => false,
    }
}

/// Whether two optional numbers are both absent or equal.
pub fn same_number_opt(a: Option<i32>, b: Option<i32>) -> (same: bool)
    ensures
        same == (a == b),
{
    match (a, b) {
        (Some(x), Some(y)) => x == y,
        (None, None) => true,
        _ => false,
    }
}

/// Whether `c` is white space: a character with the Unicode property
/// White_Space. These are the tab, the line feed, the vertical tab, the form
/// feed, the carriage return, the space, the next-line character, the
/// no-break space, the ogham space mark, the spaces of fixed width from the
/// en quad to the hair space, the line and the paragraph separator, the
/// narrow no-break space, the medium mathematical space and the ideographic
/// space.
pub open spec fn white_space(c: char) -> bool {
    ||| '\u{9}' <= c <= '\u{d}'
    ||| c == ' '
    ||| c == '\u{85}'
    ||| c == '\u{a0}'
    ||| c == '\u{1680}'
    ||| '\u{2000}' <= c <= '\u{200a}'
    ||| c == '\u{2028}'
    ||| c == '\u{2029}'
    ||| c == '\u{202f}'
    ||| c == '\u{205f}'
    ||| c == '\u{3000}'
}

/// Whether `c` is white space.
pub fn is_whitespace(c: char) -> (blank: bool)
    ensures
        blank == white_space(c),
{
    ('\u{9}' <= c && c <= '\u{d}') || c == ' ' || c == '\u{85}' || c == '\u{a0}' || c == '\u{1680}'
        || ('\u{2000}' <= c && c <= '\u{200a}') || c == '\u{2028}' || c == '\u{2029}' || c
        == '\u{202f}' || c == '\u{205f}' || c == '\u{3000}'
}

/// `s` without its leading white space.
pub open spec fn trimmed_start(s: Seq<char>) -> Seq<char>
    decreases s.len(),
{
    if s.len() > 0 && white_space(s.first()) {
        trimmed_start(s.drop_first())
    } else {
        s
    }
}

/// `s` without its trailing white space.
pub open spec fn trimmed_end(s: Seq<char>) -> Seq<char>
    decreases s.len(),
{
    if s.len() > 0 && white_space(s.last()) {
        trimmed_end(s.drop_last())
    } else {
        s
    }
}

/// `s` without the white space at either end.
pub open spec fn trimmed(s: Seq<char>) -> Seq<char> {
    trimmed_end(trimmed_start(s))
}

proof fn lemma_trimmed_start_skips(s: Seq<char>, n: int)
    requires
        0 <= n <= s.len(),
        forall|j: int| 0 <= j < n ==> white_space(#[trigger] s[j]),
    ensures
        trimmed_start(s) == trimmed_start(s.skip(n)),
    decreases n,
{
    if n > 0 {
        let rest = s.drop_first();
        lemma_trimmed_start_skips(rest, n - 1);
        assert(rest.skip(n - 1) =~= s.skip(n));
    } else {
        assert(s.skip(0) =~= s);
    }
}

proof fn lemma_trimmed_end_takes(s: Seq<char>, n: int)
    requires
        0 <= n <= s.len(),
        forall|j: int| n <= j < s.len() ==> white_space(#[trigger] s[j]),
    ensures
        trimmed_end(s) == trimmed_end(s.take(n)),
    decreases s.len() - n,
{
    if n < s.len() {
        let rest = s.drop_last();
        lemma_trimmed_end_takes(rest, n);
        assert(rest.take(n) =~= s.take(n));
    } else {
        assert(s.take(n) =~= s);
    }
}

proof fn lemma_trimmed_start_is_tail(s: Seq<char>)
    ensures
        trimmed_start(s).len() > 0 ==> !white_space(trimmed_start(s).first()),
        exists|n: int| 0 <= n <= s.len() && trimmed_start(s) == #[trigger] s.skip(n),
    decreases s.len(),
{
    if s.len() > 0 && white_space(s.first()) {
        let rest = s.drop_first();
        lemma_trimmed_start_is_tail(rest);
        let n = choose|n: int| 0 <= n <= rest.len() && trimmed_start(rest) == #[trigger] rest.skip(n);
        assert(rest.skip(n) =~= s.skip(n + 1));
    } else {
        assert(s.skip(0) =~= s);
    }
}

proof fn lemma_trimmed_end_is_head(s: Seq<char>)
    ensures
        trimmed_end(s).len() > 0 ==> !white_space(trimmed_end(s).last()),
        exists|n: int| 0 <= n <= s.len() && trimmed_end(s) == #[trigger] s.take(n),
    decreases s.len(),
{
    if s.len() > 0 && white_space(s.last()) {
        let rest = s.drop_last();
        lemma_trimmed_end_is_head(rest);
        let n = choose|n: int| 0 <= n <= rest.len() && trimmed_end(rest) == #[trigger] rest.take(n);
        assert(rest.take(n) =~= s.take(n));
    } else {
        assert(s.take(s.len() as int) =~= s);
    }
}

/// What is left after trimming neither starts nor ends with white space,
/// and trimming it again changes nothing.
pub proof fn lemma_trimmed_is_trim(s: Seq<char>)
    ensures
        trimmed(s).len() > 0 ==> !white_space(trimmed(s).first()) && !white_space(
            trimmed(s).last(),
        ),
        trimmed(trimmed(s)) == trimmed(s),
{
    let tail = trimmed_start(s);
    lemma_trimmed_start_is_tail(s);
    lemma_trimmed_end_is_head(tail);
}

/// Of a text that is white space throughout, trimming leaves nothing.
pub proof fn lemma_trimmed_of_blank(s: Seq<char>)
    requires
        forall|i: int| 0 <= i < s.len() ==> white_space(#[trigger] s[i]),
    ensures
        trimmed(s) == Seq::<char>::empty(),
{
    lemma_trimmed_start_skips(s, s.len() as int);
}

/// Where what is left of `chars` after trimming starts and ends.
pub fn trim_bounds(chars: &Vec<char>) -> (bounds: (usize, usize))
    ensures
        bounds.0 <= bounds.1 <= chars.len(),
        chars@.subrange(bounds.0 as int, bounds.1 as int) == trimmed(chars@),
{
    let mut start: usize = 0;
    while start < chars.len() && is_whitespace(chars[start])
        invariant
            start <= chars.len(),
            forall|j: int| 0 <= j < start ==> white_space(#[trigger] chars@[j]),
        decreases chars.len() - start,
    {
        start += 1;
    }
    let mut end: usize = chars.len();
    while end > start && is_whitespace(chars[end - 1])
        invariant
            start <= end <= chars.len(),
            forall|j: int| end <= j < chars.len() ==> white_space(#[trigger] chars@[j]),
        decreases end,
    {
        end -= 1;
    }
    proof {
        lemma_trimmed_start_skips(chars@, start as int);
        lemma_trimmed_end_takes(chars@.skip(start as int), end - start);
    }
    (start, end)
}

/// `chars` without the white space at either end.
pub fn trim_chars(chars: &Vec<char>) -> (kept: Vec<char>)
    ensures
        kept@ == trimmed(chars@),
{
    let (start, end) = trim_bounds(chars);
    sub_chars(chars, start, end)
}

/// Removes the white space at both ends of `s`.
pub fn trim(s: &str) -> (t: String)
    ensures
        t@ == trimmed(s@),
{
    let chars = chars_of(s);
    let (start, end) = trim_bounds(&chars);
    text_between(&chars, start, end)
}

/// The pieces that `s` falls into at each `sep`. There is one piece more
/// than there are separators; a piece may be empty.
pub open spec fn split(s: Seq<char>, sep: char) -> Seq<Seq<char>>
    decreases s.len(),
{
    if s.len() == 0 {
        seq![Seq::empty()]
    } else {
        let before = split(s.drop_last(), sep);
        if s.last() == sep {
            before.push(Seq::empty())
        } else {
            before.drop_last().push(before.last().push(s.last()))
        }
    }
}

/// Splits `chars` at each `sep`.
pub fn split_chars(chars: &Vec<char>, sep: char) -> (pieces: Vec<Vec<char>>)
    ensures
        pieces_of(pieces@) == split(chars@, sep),
        pieces@.len() > 0,
{
    let mut pieces: Vec<Vec<char>> = Vec::new();
    let mut current: Vec<char> = Vec::new();
    let mut i: usize = 0;
    while i < chars.len()
        invariant
            i <= chars.len(),
            pieces_of(pieces@).push(current@) == split(chars@.take(i as int), sep),
        decreases chars.len() - i,
    {
        assert(chars@.take(i + 1).drop_last() =~= chars@.take(i as int));
        if chars[i] == sep {
            pieces.push(current);
            current = Vec::new();
        } else {
            current.push(chars[i]);
        }
        i += 1;
    }
    assert(chars@.take(chars.len() as int) =~= chars@);
    pieces.push(current);
    pieces
}

/// Whether `s` spells the word that `upper` and `lower` spell in capitals
/// and in small letters, in any mixture of the two.
pub open spec fn same_word(s: Seq<char>, upper: Seq<char>, lower: Seq<char>) -> bool {
    &&& s.len() == upper.len()
    &&& s.len() == lower.len()
    &&& forall|i: int| 0 <= i < s.len() ==> #[trigger] s[i] == upper[i] || s[i] == lower[i]
}

/// Whether `chars[from..to]` spells the word that `upper` and `lower` spell.
pub fn is_word(chars: &Vec<char>, from: usize, to: usize, upper: &str, lower: &str) -> (same: bool)
    requires
        from <= to <= chars.len(),
    ensures
        same == same_word(chars@.subrange(from as int, to as int), upper@, lower@),
{
    let capitals = chars_of(upper);
    let small = chars_of(lower);
    let n = to - from;
    if capitals.len() != n || small.len() != n {
        return false;
    }
    let ghost s = chars@.subrange(from as int, to as int);
    let mut i: usize = 0;
    while i < n
        invariant
            i <= n == to - from,
            to <= chars.len(),
            s == chars@.subrange(from as int, to as int),
            capitals@ == upper@,
            small@ == lower@,
            capitals.len() == n,
            small.len() == n,
            forall|j: int| 0 <= j < i ==> #[trigger] s[j] == upper@[j] || s[j] == lower@[j],
        decreases n - i,
    {
        let c = chars[from + i];
        assert(s[i as int] == c);
        if c != capitals[i] && c != small[i] {
            return false;
        }
        i += 1;
    }
    true
}

/// The parts written one after another with `sep` between neighbours.
pub open spec fn joined(parts: Seq<Seq<char>>, sep: Seq<char>) -> Seq<char>
    decreases parts.len(),
{
    if parts.len() == 0 {
        Seq::empty()
    } else if parts.len() == 1 {
        parts[0]
    } else {
        joined(parts.drop_last(), sep) + sep + parts.last()
    }
}

/// `Itertools::join` on string slices: the empty string for no parts, else
/// the first part followed, for each further part, by `sep` and the part.
#[verifier::external_body]
pub(crate) fn join_texts(parts: &Vec<&str>, sep: &str) -> (text: String)
    ensures
        text@ == joined(texts_of(parts@), sep@),
{
    parts.iter().join(sep)
}

/// `parts` with `part` appended if there is one.
pub open spec fn with_part(parts: Seq<Seq<char>>, part: Option<Seq<char>>) -> Seq<Seq<char>> {
    match part {
        Some(text) => parts.push(text),
        None => parts,
    }
}

/// Appends `part` to `parts` if there is one.
pub fn push_part<'a>(parts: &mut Vec<&'a str>, part: &'a Option<String>)
    ensures
        texts_of(final(parts)@) == with_part(texts_of(old(parts)@), text_opt(*part)),
{
    match part {
        Some(text) => {
            parts.push(text.as_str());
        },
        None => {},
    }
}

/// `parts` with `part` appended unless it is empty.
pub open spec fn with_nonempty(parts: Seq<Seq<char>>, part: Seq<char>) -> Seq<Seq<char>> {
    if part.len() > 0 {
        parts.push(part)
    } else {
        parts
    }
}

/// The parts that are not empty, in order.
pub open spec fn nonempty(parts: Seq<Seq<char>>) -> Seq<Seq<char>>
    decreases parts.len(),
{
    if parts.len() == 0 {
        Seq::empty()
    } else {
        with_nonempty(nonempty(parts.drop_last()), parts.last())
    }
}

/// Appends `part` to `parts` unless it is empty.
pub fn push_nonempty<'a>(parts: &mut Vec<&'a str>, part: &'a str)
    ensures
        texts_of(final(parts)@) == with_nonempty(texts_of(old(parts)@), part@),
{
    if !part.is_empty() {
        parts.push(part);
    }
}

/// Appends every string of `more` to `parts`.
pub fn push_all<'a>(parts: &mut Vec<&'a str>, more: &'a Vec<String>)
    ensures
        texts_of(final(parts)@) == texts_of(old(parts)@) + texts(more@),
{
    let mut i: usize = 0;
    while i < more.len()
        invariant
            i <= more.len(),
            texts_of(parts@) == texts_of(old(parts)@) + texts(more@.take(i as int)),
        decreases more.len() - i,
    {
        let ghost before = parts@;
        parts.push(more[i].as_str());
        i += 1;
        assert(texts_of(parts@) =~= texts_of(before).push(more@[i - 1]@));
    }
}

/// Appends every string slice of `more` to `parts`.
pub fn append_all<'a>(parts: &mut Vec<&'a str>, more: &Vec<&'a str>)
    ensures
        texts_of(final(parts)@) == texts_of(old(parts)@) + texts_of(more@),
{
    let mut i: usize = 0;
    while i < more.len()
        invariant
            i <= more.len(),
            texts_of(parts@) == texts_of(old(parts)@) + texts_of(more@.take(i as int)),
        decreases more.len() - i,
    {
        let ghost before = parts@;
        parts.push(more[i]);
        i += 1;
        assert(texts_of(parts@) =~= texts_of(before).push(more@[i - 1]@));
    }
}

/// What the regex engine returns when every match of `pattern` in `text` is
/// replaced by `replacement`; `None` where it refuses the pattern.
pub uninterp spec fn regex_replace_all(
    pattern: Seq<char>,
    text: Seq<char>,
    replacement: Seq<char>,
) -> Option<Seq<char>>;

/// `Regex::new` followed by `Regex::replace_all`. The result is whatever the
/// engine computes for these three texts; nothing more is claimed of it.
#[verifier::external_body]
fn replace_all(pattern: &str, text: &str, replacement: &str) -> (replaced: Option<String>)
    ensures
        text_opt(replaced) == regex_replace_all(pattern@, text@, replacement@),
{
    match Regex::new(pattern) {
        Ok(re) => Some(re.replace_all(text, replacement).into_owned()),
        Err(_) => None,
    }
}

/// Runs of separators (no-break space included), of invisible formatting
/// characters (zero-width space included) and of newlines.
pub const SEPARATOR_RUNS: &'static str = r"[\p{Z}\p{Cf}\n]+";

/// The searchable form of `s`: each run of separators collapsed into one
/// space, then trimmed. In an empty text there is nothing to collapse. Should
/// the engine refuse the pattern, the text is trimmed only.
pub open spec fn normalized(s: Seq<char>) -> Seq<char> {
    if s.len() == 0 {
        s
    } else {
        match regex_replace_all(SEPARATOR_RUNS@, s, " "@) {
            Some(collapsed) => trimmed(collapsed),
            None => trimmed(s),
        }
    }
}

/// The searchable form of a text neither starts nor ends with white space.
pub proof fn lemma_normalized_is_trimmed(s: Seq<char>)
    ensures
        normalized(s).len() > 0 ==> !white_space(normalized(s).first()) && !white_space(
            normalized(s).last(),
        ),
{
    if s.len() > 0 {
        match regex_replace_all(SEPARATOR_RUNS@, s, " "@) {
            Some(collapsed) => lemma_trimmed_is_trim(collapsed),
            None => lemma_trimmed_is_trim(s),
        }
    }
}

/// Normalises `s` for searching.
pub fn normalize_searchable_string(s: &str) -> (text: String)
    ensures
        text@ == normalized(s@),
{
    if s.is_empty() {
        return String::new();
    }
    match replace_all(SEPARATOR_RUNS, s, " ") {
        Some(collapsed) => trim(collapsed.as_str()),
        None => trim(s),
    }
}

/// The character that writes the digit `d`.
pub open spec fn digit_char(d: int) -> char {
    if d == 0 {
        '0'
    } else if d == 1 {
        '1'
    } else if d == 2 {
        '2'
    } else if d == 3 {
        '3'
    } else if d == 4 {
        '4'
    } else if d == 5 {
        '5'
    } else if d == 6 {
        '6'
    } else if d == 7 {
        '7'
    } else if d == 8 {
        '8'
    } else {
        '9'
    }
}

/// The decimal digits of `n`, most significant first, without leading zeros.
pub open spec fn decimal_digits(n: nat) -> Seq<char>
    decreases n,
{
    if n < 10 {
        seq![digit_char(n as int)]
    } else {
        decimal_digits(n / 10).push(digit_char((n % 10) as int))
    }
}

/// `n` written in decimal, with a minus sign before a negative number.
pub open spec fn decimal(n: int) -> Seq<char> {
    if n < 0 {
        seq!['-'] + decimal_digits((-n) as nat)
    } else {
        decimal_digits(n as nat)
    }
}

fn digit_of(d: u64) -> (c: char)
    requires
        d < 10,
    ensures
        c == digit_char(d as int),
{
    if d == 0 {
        '0'
    } else if d == 1 {
        '1'
    } else if d == 2 {
        '2'
    } else if d == 3 {
        '3'
    } else if d == 4 {
        '4'
    } else if d == 5 {
        '5'
    } else if d == 6 {
        '6'
    } else if d == 7 {
        '7'
    } else if d == 8 {
        '8'
    } else {
        '9'
    }
}

/// Writes `n` in decimal.
pub fn decimal_string(n: i64) -> (text: String)
    ensures
        text@ == decimal(n as int),
{
    let magnitude: u64 = if n >= 0 {
        n as u64
    } else {
        (-(n + 1)) as u64 + 1
    };
    // Digits from the least significant up.
    let mut low_first: Vec<char> = Vec::new();
    low_first.push(digit_of(magnitude % 10));
    let mut rest: u64 = magnitude / 10;
    while rest > 0
        invariant
            low_first.len() > 0,
            rest > 0 ==> decimal_digits(magnitude as nat) == decimal_digits(rest as nat)
                + low_first@.reverse(),
            rest == 0 ==> decimal_digits(magnitude as nat) == low_first@.reverse(),
        decreases rest,
    {
        low_first.push(digit_of(rest % 10));
        rest = rest / 10;
    }
    let mut text = String::new();
    if n < 0 {
        push_char(&mut text, '-');
    }
    let ghost sign = text@;
    let mut i: usize = low_first.len();
    while i > 0
        invariant
            i <= low_first.len(),
            text@ == sign + low_first@.reverse().take(low_first.len() - i),
        decreases i,
    {
        i -= 1;
        push_char(&mut text, low_first[i]);
    }
    text
}

} // verus!
