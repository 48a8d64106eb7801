//! Text as sequences of characters.
//!
//! Every parser and every message of this crate is described over `Seq<char>`.
//! This module holds the shared vocabulary: character classes, trimming,
//! splitting into lines and words, searching, and decimal numbers.

use vstd::prelude::*;
use vstd::slice::slice_subrange;

verus! {

/// `String::push` of the standard library appends one character to the end of
/// the string and changes nothing else.
pub assume_specification[ String::push ](s: &mut String, c: char)
    ensures
        final(s)@ == old(s)@.push(c),
;

/// The characters of a string, in order.
pub fn to_chars(s: &str) -> (v: Vec<char>)
    ensures
        v@ == s@,
{
    let mut v: Vec<char> = Vec::new();
    for c in it: s.chars()
        invariant
            v@ == it.seq().take(it.index()),
    {
        v.push(c);
    }
    v
}

/// The text of a string that may be absent.
pub open spec fn text_of(s: Option<String>) -> Option<Seq<char>> {
    match s {
        Some(s) => Some(s@),
        None => None,
    }
}

/// The text of a string slice that may be absent.
pub open spec fn text_of_str(s: Option<&str>) -> Option<Seq<char>> {
    match s {
        Some(s) => Some(s@),
        None => None,
    }
}

/// The text of a list of characters that may be absent.
pub open spec fn text_of_chars(s: Option<Vec<char>>) -> Option<Seq<char>> {
    match s {
        Some(s) => Some(s@),
        None => None,
    }
}

/// The texts of a list of strings.
pub open spec fn texts(strings: Seq<String>) -> Seq<Seq<char>> {
    strings.map_values(|s: String| s@)
}

/// Appends the characters of `s` to `out`.
pub fn push_chars(out: &mut String, s: &[char])
    ensures
        final(out)@ == old(out)@ + s@,
{
    let mut i: usize = 0;
    while i < s.len()
        invariant
            i <= s@.len(),
            out@ == old(out)@ + s@.take(i as int),
        decreases s@.len() - i,
    {
        out.push(s[i]);
        i += 1;
    }
}

/// The string made of the characters of `s`.
pub fn from_chars(s: &[char]) -> (out: String)
    ensures
        out@ == s@,
{
    let mut out = String::new();
    push_chars(&mut out, s);
    out
}

/// Whether two character sequences are the same.
pub fn same_chars(a: &[char], b: &[char]) -> (r: bool)
    ensures
        r == (a@ == b@),
{
    if a.len() != b.len() {
        return false;
    }
    let mut i: usize = 0;
    while i < a.len()
        invariant
            i <= a@.len(),
            a@.len() == b@.len(),
            a@.take(i as int) == b@.take(i as int),
        decreases a@.len() - i,
    {
        if a[i] != b[i] {
            return false;
        }
        i += 1;
    }
    assert(a@ == a@.take(a@.len() as int));
    assert(b@ == b@.take(b@.len() as int));
    true
}

/// The characters with the Unicode property `White_Space`.
pub open spec fn whitespace(c: char) -> bool {
    let n = c as u32;
    ||| 0x09 <= n <= 0x0D
    ||| n == 0x20
    ||| n == 0x85
    ||| n == 0xA0
    ||| n == 0x1680
    ||| 0x2000 <= n <= 0x200A
    ||| n == 0x2028
    ||| n == 0x2029
    ||| n == 0x202F
    ||| n == 0x205F
    ||| n == 0x3000
}

pub fn is_whitespace(c: char) -> (b: bool)
    ensures
        b == whitespace(c),
{
    let n: u32 = c as u32;
    (0x09 <= n && n <= 0x0D) || n == 0x20 || n == 0x85 || n == 0xA0 || n == 0x1680 || (0x2000 <= n
        && n <= 0x200A) || n == 0x2028 || n == 0x2029 || n == 0x202F || n == 0x205F || n == 0x3000
}

/// A class of characters that a scan stops at or strips.
#[derive(Clone, Copy, Debug)]
pub enum CharSet {
    /// The white space characters.
    Whitespace,
    /// White space and `=`.
    WhitespaceOrEquals,
    /// One character.
    Only(char),
}

impl CharSet {
    pub open spec fn has(self, c: char) -> bool {
        match self {
            CharSet::Whitespace => whitespace(c),
            CharSet::WhitespaceOrEquals => whitespace(c) || c == '=',
            CharSet::Only(x) => c == x,
        }
    }

    pub fn contains(&self, c: char) -> (b: bool)
        ensures
            b == self.has(c),
    {
        match self {
            CharSet::Whitespace => is_whitespace(c),
            CharSet::WhitespaceOrEquals => is_whitespace(c) || c == '=',
            CharSet::Only(x) => c == *x,
        }
    }
}

/// The length of the longest prefix of `s` that holds no character of `set`:
/// the index of the first such character, or the length of `s`.
pub open spec fn span_outside(s: Seq<char>, set: CharSet) -> int
    decreases s.len(),
{
    if s.len() == 0 || set.has(s[0]) {
        0
    } else {
        1 + span_outside(s.skip(1), set)
    }
}

/// `s` without its leading characters of `set`.
pub open spec fn skip_leading(s: Seq<char>, set: CharSet) -> Seq<char>
    decreases s.len(),
{
    if s.len() > 0 && set.has(s[0]) {
        skip_leading(s.skip(1), set)
    } else {
        s
    }
}

/// `s` without its trailing characters of `set`.
pub open spec fn skip_trailing(s: Seq<char>, set: CharSet) -> Seq<char>
    decreases s.len(),
{
    if s.len() > 0 && set.has(s.last()) {
        skip_trailing(s.drop_last(), set)
    } else {
        s
    }
}

/// `s` without the characters of `set` at both ends.
pub open spec fn strip(s: Seq<char>, set: CharSet) -> Seq<char> {
    skip_trailing(skip_leading(s, set), set)
}

/// `s` without white space at both ends.
pub open spec fn trimmed(s: Seq<char>) -> Seq<char> {
    strip(s, CharSet::Whitespace)
}

/// `span_outside` is the one index before which no character is in `set` and at
/// which one is, or the text ends.
pub proof fn lemma_span_outside(s: Seq<char>, set: CharSet)
    ensures
        0 <= span_outside(s, set) <= s.len(),
        forall|j: int| 0 <= j < span_outside(s, set) ==> !set.has(#[trigger] s[j]),
        span_outside(s, set) < s.len() ==> set.has(s[span_outside(s, set)]),
    decreases s.len(),
{
    if s.len() > 0 && !set.has(s[0]) {
        lemma_span_outside(s.skip(1), set);
        let n = span_outside(s.skip(1), set);
        assert forall|j: int| 0 <= j < 1 + n implies !set.has(#[trigger] s[j]) by {
            if j > 0 {
                assert(s[j] == s.skip(1)[j - 1]);
            }
        }
    }
}

/// An index with the two properties of `lemma_span_outside` is `span_outside`.
pub proof fn lemma_span_outside_is(s: Seq<char>, set: CharSet, n: int)
    requires
        0 <= n <= s.len(),
        forall|j: int| 0 <= j < n ==> !set.has(#[trigger] s[j]),
        n < s.len() ==> set.has(s[n]),
    ensures
        span_outside(s, set) == n,
    decreases s.len(),
{
    if s.len() > 0 && !set.has(s[0]) {
        assert forall|j: int| 0 <= j < n - 1 implies !set.has(#[trigger] s.skip(1)[j]) by {
            assert(s.skip(1)[j] == s[j + 1]);
        }
        lemma_span_outside_is(s.skip(1), set, n - 1);
    }
}

/// The index of the first character of `set` in `s`, or the length of `s`.
pub fn find_in_set(s: &[char], set: CharSet) -> (n: usize)
    ensures
        n == span_outside(s@, set),
        n <= s@.len(),
{
    let mut i: usize = 0;
    while i < s.len() && !set.contains(s[i])
        invariant
            i <= s@.len(),
            forall|j: int| 0 <= j < i ==> !set.has(#[trigger] s@[j]),
        decreases s@.len() - i,
    {
        i += 1;
    }
    proof {
        lemma_span_outside_is(s@, set, i as int);
    }
    i
}

/// `s` from its first character that is not in `set`.
pub fn trim_start_of<'a>(s: &'a [char], set: CharSet) -> (r: &'a [char])
    ensures
        r@ == skip_leading(s@, set),
{
    let mut i: usize = 0;
    assert(s@.skip(0) == s@);
    while i < s.len() && set.contains(s[i])
        invariant
            i <= s@.len(),
            skip_leading(s@, set) == skip_leading(s@.skip(i as int), set),
        decreases s@.len() - i,
    {
        assert(s@.skip(i as int).skip(1) == s@.skip(i + 1));
        i += 1;
    }
    slice_subrange(s, i, s.len())
}

/// `s` up to its last character that is not in `set`.
pub fn trim_end_of<'a>(s: &'a [char], set: CharSet) -> (r: &'a [char])
    ensures
        r@ == skip_trailing(s@, set),
{
    let mut n: usize = s.len();
    assert(s@.take(s@.len() as int) == s@);
    while n > 0 && set.contains(s[n - 1])
        invariant
            n <= s@.len(),
            skip_trailing(s@, set) == skip_trailing(s@.take(n as int), set),
        decreases n,
    {
        assert(s@.take(n as int).drop_last() == s@.take(n - 1));
        n -= 1;
    }
    slice_subrange(s, 0, n)
}

/// `s` without the characters of `set` at both ends.
pub fn strip_of<'a>(s: &'a [char], set: CharSet) -> (r: &'a [char])
    ensures
        r@ == strip(s@, set),
{
    trim_end_of(trim_start_of(s, set), set)
}

/// `s` without white space at both ends.
pub fn trim<'a>(s: &'a [char]) -> (r: &'a [char])
    ensures
        r@ == trimmed(s@),
{
    strip_of(s, CharSet::Whitespace)
}

/// The decimal digit for `d`, which is below ten.
pub open spec fn digit(d: nat) -> char {
    ((48 + d) as u8) as char
}

/// `n` in decimal, without sign or leading zeros.
pub open spec fn decimal(n: nat) -> Seq<char>
    decreases n,
{
    if n < 10 {
        seq![digit(n)]
    } else {
        decimal(n / 10).push(digit(n % 10))
    }
}

pub open spec fn is_digit(c: char) -> bool {
    '0' <= c <= '9'
}

pub open spec fn all_digits(s: Seq<char>) -> bool {
    forall|i: int| 0 <= i < s.len() ==> is_digit(#[trigger] s[i])
}

/// The number that a digit stands for.
pub open spec fn digit_value(c: char) -> nat {
    (c as u32 - 48) as nat
}

/// The number that a sequence of digits stands for; zero for the empty one.
pub open spec fn digits_value(s: Seq<char>) -> nat
    decreases s.len(),
{
    if s.len() == 0 {
        0
    } else {
        digits_value(s.drop_last()) * 10 + digit_value(s.last())
    }
}

/// What is left of a number's text after one optional leading `+`.
pub open spec fn after_plus(s: Seq<char>) -> Seq<char> {
    if s.len() > 0 && s[0] == '+' {
        s.skip(1)
    } else {
        s
    }
}

/// The number that `s` denotes, if it is one that does not exceed `max`: an
/// optional `+`, then one or more decimal digits and nothing else. Leading
/// zeros are accepted.
pub open spec fn parse_unsigned(s: Seq<char>, max: nat) -> Option<nat> {
    let d = after_plus(s);
    if d.len() > 0 && all_digits(d) && digits_value(d) <= max {
        Some(digits_value(d))
    } else {
        None
    }
}

/// Appends `n` in decimal to `out`.
pub fn push_decimal(out: &mut String, n: u64)
    ensures
        final(out)@ == old(out)@ + decimal(n as nat),
    decreases n,
{
    if n >= 10 {
        push_decimal(out, n / 10);
    }
    let d: u8 = (n % 10) as u8;
    out.push((48u8 + d) as char);
}

/// A longer run of digits never stands for a smaller number than its prefix.
pub proof fn lemma_digits_value_grows(s: Seq<char>, i: int)
    requires
        0 <= i <= s.len(),
    ensures
        digits_value(s.take(i)) <= digits_value(s),
    decreases s.len() - i,
{
    if i == s.len() {
        assert(s.take(i) == s);
    } else {
        lemma_digits_value_grows(s, i + 1);
        assert(s.take(i + 1).drop_last() == s.take(i));
    }
}

/// The number that `s` denotes, if it is one that does not exceed `max`.
pub fn parse_number(s: &[char], max: u32) -> (r: Option<u32>)
    ensures
        r is Some == parse_unsigned(s@, max as nat) is Some,
        r is Some ==> r->0 as nat == parse_unsigned(s@, max as nat)->0,
{
    let start: usize = if s.len() > 0 && s[0] == '+' {
        1
    } else {
        0
    };
    let ghost d = after_plus(s@);
    if start == s.len() {
        return None;
    }
    let mut acc: u64 = 0;
    let mut i: usize = start;
    while i < s.len()
        invariant
            start <= i <= s@.len(),
            d == s@.skip(start as int),
            d == after_plus(s@),
            all_digits(d.take(i - start)),
            acc == digits_value(d.take(i - start)),
            acc <= max,
        decreases s@.len() - i,
    {
        let c = s[i];
        if !(c >= '0' && c <= '9') {
            assert(!is_digit(d[i - start]));
            return None;
        }
        let v: u64 = (c as u32 - 48) as u64;
        acc = acc * 10 + v;
        assert(d.take(i - start + 1).drop_last() == d.take(i - start));
        assert forall|j: int| 0 <= j < i - start + 1 implies is_digit(
            #[trigger] d.take(i - start + 1)[j],
        ) by {
            if j < i - start {
                assert(d.take(i - start + 1)[j] == d.take(i - start)[j]);
            }
        }
        if acc > max as u64 {
            proof {
                lemma_digits_value_grows(d, i - start + 1);
            }
            return None;
        }
        i += 1;
    }
    assert(d.take(i - start) == d);
    Some(acc as u32)
}

/// The digits of a decimal number stand for that number.
pub proof fn lemma_decimal_digits(n: nat)
    ensures
        decimal(n).len() > 0,
        all_digits(decimal(n)),
        digits_value(decimal(n)) == n,
    decreases n,
{
    if n < 10 {
        assert(digits_value(decimal(n).drop_last()) == 0);
    } else {
        lemma_decimal_digits(n / 10);
        assert(decimal(n).drop_last() == decimal(n / 10));
        assert forall|i: int| 0 <= i < decimal(n).len() implies is_digit(
            #[trigger] decimal(n)[i],
        ) by {
            if i < decimal(n / 10).len() {
                assert(decimal(n)[i] == decimal(n / 10)[i]);
            }
        }
    }
}

/// A number written in decimal reads back as itself.
pub proof fn lemma_parse_decimal(n: nat, max: nat)
    requires
        n <= max,
    ensures
        parse_unsigned(decimal(n), max) == Some(n),
{
    lemma_decimal_digits(n);
}

/// The views of a list of slices.
pub open spec fn views(parts: Seq<&[char]>) -> Seq<Seq<char>> {
    parts.map_values(|p: &[char]| p@)
}

/// The pieces of `s` between the occurrences of `sep`. There is always at least
/// one piece, and a piece may be empty.
pub open spec fn split(s: Seq<char>, sep: char) -> Seq<Seq<char>>
    decreases s.len(),
    via split_decreases
{
    let n = span_outside(s, CharSet::Only(sep));
    if n >= s.len() {
        seq![s]
    } else {
        seq![s.take(n)] + split(s.skip(n + 1), sep)
    }
}

#[via_fn]
proof fn split_decreases(s: Seq<char>, sep: char) {
    lemma_span_outside(s, CharSet::Only(sep));
}

/// The pieces of `s` between the occurrences of `sep`.
pub fn split_on<'a>(s: &'a [char], sep: char) -> (parts: Vec<&'a [char]>)
    ensures
        views(parts@) == split(s@, sep),
        parts@.len() >= 1,
{
    let mut parts: Vec<&'a [char]> = Vec::new();
    let mut pos: usize = 0;
    assert(s@.skip(0) == s@);
    loop
        invariant_except_break
            pos <= s@.len(),
            split(s@, sep) == views(parts@) + split(s@.skip(pos as int), sep),
        ensures
            views(parts@) == split(s@, sep),
            parts@.len() >= 1,
        decreases s@.len() - pos,
    {
        let rest = slice_subrange(s, pos, s.len());
        let n = find_in_set(rest, CharSet::Only(sep));
        let piece = slice_subrange(rest, 0, n);
        parts.push(piece);
        if n >= rest.len() {
            assert(piece@ == rest@);
            break ;
        }
        assert(rest@.skip(n + 1) == s@.skip(pos + n + 1));
        pos = pos + n + 1;
    }
    parts
}

/// The maximal runs of characters of `s` that are not white space, in order.
pub open spec fn words(s: Seq<char>) -> Seq<Seq<char>>
    decreases s.len(),
    via words_decreases
{
    if s.len() == 0 {
        seq![]
    } else if whitespace(s[0]) {
        words(s.skip(1))
    } else {
        let n = span_outside(s, CharSet::Whitespace);
        seq![s.take(n)] + words(s.skip(n))
    }
}

#[via_fn]
proof fn words_decreases(s: Seq<char>) {
    if s.len() > 0 && !whitespace(s[0]) {
        lemma_span_outside(s.skip(1), CharSet::Whitespace);
    }
}

/// The maximal runs of characters of `s` that are not white space, in order.
pub fn split_words<'a>(s: &'a [char]) -> (parts: Vec<&'a [char]>)
    ensures
        views(parts@) == words(s@),
{
    let mut parts: Vec<&'a [char]> = Vec::new();
    let mut pos: usize = 0;
    assert(s@.skip(0) == s@);
    while pos < s.len()
        invariant
            pos <= s@.len(),
            words(s@) == views(parts@) + words(s@.skip(pos as int)),
        decreases s@.len() - pos,
    {
        let ghost tail = s@.skip(pos as int);
        if is_whitespace(s[pos]) {
            assert(tail.skip(1) == s@.skip(pos + 1));
            pos += 1;
        } else {
            let rest = slice_subrange(s, pos, s.len());
            let n = find_in_set(rest, CharSet::Whitespace);
            let piece = slice_subrange(rest, 0, n);
            parts.push(piece);
            assert(rest@.skip(n as int) == s@.skip(pos + n));
            proof {
                lemma_span_outside(tail, CharSet::Whitespace);
            }
            pos = pos + n;
        }
    }
    parts
}

/// `parts` one after the other, with `sep` between each two.
pub open spec fn join(parts: Seq<Seq<char>>, sep: Seq<char>) -> Seq<char>
    decreases parts.len(),
{
    if parts.len() == 0 {
        seq![]
    } else if parts.len() == 1 {
        parts[0]
    } else {
        join(parts.drop_last(), sep) + sep + parts.last()
    }
}

/// `parts` one after the other, with `sep` between each two.
pub fn join_parts(parts: &Vec<&[char]>, sep: &[char]) -> (out: String)
    ensures
        out@ == join(views(parts@), sep@),
{
    let mut out = String::new();
    let mut i: usize = 0;
    while i < parts.len()
        invariant
            i <= parts@.len(),
            out@ == join(views(parts@).take(i as int), sep@),
        decreases parts@.len() - i,
    {
        if i > 0 {
            push_chars(&mut out, sep);
        }
        push_chars(&mut out, parts[i]);
        assert(views(parts@).take(i + 1).drop_last() == views(parts@).take(i as int));
        i += 1;
    }
    assert(views(parts@).take(parts@.len() as int) == views(parts@));
    out
}

/// Whether `pat` stands in `s` at index `i`.
pub open spec fn occurs_at(s: Seq<char>, pat: Seq<char>, i: int) -> bool {
    0 <= i && i + pat.len() <= s.len() && s.subrange(i, i + pat.len()) == pat
}

/// Whether `pat` stands somewhere in `s`.
pub open spec fn has_substring(s: Seq<char>, pat: Seq<char>) -> bool {
    exists|i: int| occurs_at(s, pat, i)
}

/// Whether `s` begins with `pat`.
pub fn starts_with(s: &[char], pat: &[char]) -> (r: bool)
    ensures
        r == occurs_at(s@, pat@, 0),
{
    if pat.len() > s.len() {
        return false;
    }
    same_chars(slice_subrange(s, 0, pat.len()), pat)
}

/// Whether `pat` stands somewhere in `s`.
pub fn contains(s: &[char], pat: &[char]) -> (r: bool)
    ensures
        r == has_substring(s@, pat@),
{
    if pat.len() > s.len() {
        return false;
    }
    let last: usize = s.len() - pat.len();
    let mut i: usize = 0;
    loop
        invariant
            i <= last,
            last + pat@.len() == s@.len(),
            s@.len() <= usize::MAX,
            forall|j: int| 0 <= j < i ==> !occurs_at(s@, pat@, j),
        decreases last - i,
    {
        if same_chars(slice_subrange(s, i, i + pat.len()), pat) {
            assert(occurs_at(s@, pat@, i as int));
            return true;
        }
        if i == last {
            return false;
        }
        i += 1;
    }
}

/// An upper-case letter of the Latin alphabet as the lower-case one; any other
/// character as itself.
pub open spec fn ascii_lower(c: char) -> char {
    if 'A' <= c <= 'Z' {
        ((c as u8) + 32) as char
    } else {
        c
    }
}

/// `s` with each character through `ascii_lower`.
pub open spec fn ascii_lowered(s: Seq<char>) -> Seq<char> {
    s.map_values(|c: char| ascii_lower(c))
}

/// Whether `s` is `word` up to the case of Latin letters. `word` is expected in
/// lower case.
pub fn is_word_ignoring_case(s: &[char], word: &[char]) -> (r: bool)
    ensures
        r == (ascii_lowered(s@) == word@),
{
    if s.len() != word.len() {
        return false;
    }
    let mut i: usize = 0;
    while i < s.len()
        invariant
            i <= s@.len(),
            s@.len() == word@.len(),
            forall|j: int| 0 <= j < i ==> ascii_lower(#[trigger] s@[j]) == word@[j],
        decreases s@.len() - i,
    {
        let c = s[i];
        let low: char = if c >= 'A' && c <= 'Z' {
            ((c as u8) + 32) as char
        } else {
            c
        };
        if low != word[i] {
            return false;
        }
        i += 1;
    }
    assert(ascii_lowered(s@) =~= word@);
    true
}

} // verus!
