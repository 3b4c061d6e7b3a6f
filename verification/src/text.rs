//! Text building blocks: the pieces of string handling that the rest of the
//! crate is stated over.
//!
//! Text is modelled as a sequence of characters. Every function here says what
//! it returns in those terms.

use vstd::prelude::*;
use vstd::string::*;
use vstd::utf8::*;

verus! {

/// `String::push`: appends one character.
pub assume_specification[ String::push ](s: &mut String, c: char)
    ensures
        final(s)@ == old(s)@.push(c),
;

// ---------------------------------------------------------------------------
// Characters
// ---------------------------------------------------------------------------

/// An ASCII letter or digit.
pub open spec fn is_ascii_alphanumeric(c: char) -> bool {
    ('0' <= c <= '9') || ('A' <= c <= 'Z') || ('a' <= c <= 'z')
}

/// Unicode's `White_Space` property.
pub open spec fn is_white_space(c: char) -> bool {
    ||| '\u{9}' <= c <= '\u{d}'
    ||| c == ' '
    ||| c == '\u{85}'
    ||| c == '\u{a0}'
    ||| c == '\u{1680}'
    ||| '\u{2000}' <= c <= '\u{200a}'
    ||| c == '\u{2028}'
    ||| c == '\u{2029}'
    ||| c == '\u{202f}'
    ||| c == '\u{205f}'
    ||| c == '\u{3000}'
}

/// Lower case for ASCII capitals, everything else unchanged.
pub open spec fn ascii_lower(c: char) -> char {
    if 'A' <= c <= 'Z' {
        (c as u8 + 32) as char
    } else {
        c
    }
}

pub fn ascii_alphanumeric(c: char) -> (r: bool)
    ensures
        r == is_ascii_alphanumeric(c),
{
    ('0' <= c && c <= '9') || ('A' <= c && c <= 'Z') || ('a' <= c && c <= 'z')
}

pub fn white_space(c: char) -> (r: bool)
    ensures
        r == is_white_space(c),
{
    ('\u{9}' <= c && c <= '\u{d}') || c == ' ' || c == '\u{85}' || c == '\u{a0}' || c
        == '\u{1680}' || ('\u{2000}' <= c && c <= '\u{200a}') || c == '\u{2028}' || c == '\u{2029}'
        || c == '\u{202f}' || c == '\u{205f}' || c == '\u{3000}'
}

pub fn to_ascii_lower(c: char) -> (r: char)
    ensures
        r == ascii_lower(c),
{
    if 'A' <= c && c <= 'Z' {
        (c as u8 + 32) as char
    } else {
        c
    }
}

// ---------------------------------------------------------------------------
// Taking text apart and putting it together
// ---------------------------------------------------------------------------

/// The characters of a text.
pub fn chars_of(text: &str) -> (chars: Vec<char>)
    ensures
        chars@ == text@,
{
    let mut chars: Vec<char> = Vec::new();
    for c in iter: text.chars()
        invariant
            iter.seq() == text@,
            chars@ == text@.take(iter.index() as int),
    {
        chars.push(c);
    }
    chars
}

/// The characters `chars[from..to]` as a text of their own.
pub fn text_of(chars: &Vec<char>, from: usize, to: usize) -> (text: String)
    requires
        from <= to <= chars@.len(),
    ensures
        text@ == chars@.subrange(from as int, to as int),
{
    let mut text = String::new();
    let mut i: usize = from;
    while i < to
        invariant
            from <= i <= to <= chars@.len(),
            text@ == chars@.subrange(from as int, i as int),
        decreases to - i,
    {
        text.push(chars[i]);
        i += 1;
    }
    text
}

pub fn join2(a: &str, b: &str) -> (text: String)
    ensures
        text@ == a@ + b@,
{
    let mut text = a.to_owned();
    text.append(b);
    text
}

pub fn join3(a: &str, b: &str, c: &str) -> (text: String)
    ensures
        text@ == a@ + b@ + c@,
{
    let mut text = join2(a, b);
    text.append(c);
    text
}

pub fn join4(a: &str, b: &str, c: &str, d: &str) -> (text: String)
    ensures
        text@ == a@ + b@ + c@ + d@,
{
    let mut text = join3(a, b, c);
    text.append(d);
    text
}

pub fn join5(a: &str, b: &str, c: &str, d: &str, e: &str) -> (text: String)
    ensures
        text@ == a@ + b@ + c@ + d@ + e@,
{
    let mut text = join4(a, b, c, d);
    text.append(e);
    text
}

/// Whether two texts hold the same characters.
pub fn same_text(a: &str, b: &str) -> (r: bool)
    ensures
        r == (a@ == b@),
{
    a.to_owned() == b.to_owned()
}

/// A list of texts as a sequence of character sequences.
pub open spec fn texts(list: Seq<String>) -> Seq<Seq<char>> {
    list.map_values(|text: String| text@)
}

/// The list of texts holds `text`.
pub fn lists(list: &Vec<String>, text: &str) -> (r: bool)
    ensures
        r == texts(list@).contains(text@),
{
    let mut i: usize = 0;
    while i < list.len()
        invariant
            i <= list@.len(),
            forall|j: int| 0 <= j < i ==> list@[j]@ != text@,
        decreases list@.len() - i,
    {
        if same_text(&list[i], text) {
            assert(texts(list@)[i as int] == text@);
            return true;
        }
        i += 1;
    }
    assert forall|j: int| 0 <= j < texts(list@).len() implies texts(list@)[j] != text@ by {
        assert(list@[j]@ != text@);
    }
    false
}

pub fn list1(a: &str) -> (list: Vec<String>)
    ensures
        texts(list@) == seq![a@],
{
    let list = vec![a.to_owned()];
    assert(texts(list@) =~= seq![a@]);
    list
}

pub fn list2(a: &str, b: &str) -> (list: Vec<String>)
    ensures
        texts(list@) == seq![a@, b@],
{
    let list = vec![a.to_owned(), b.to_owned()];
    assert(texts(list@) =~= seq![a@, b@]);
    list
}

pub fn list3(a: &str, b: &str, c: &str) -> (list: Vec<String>)
    ensures
        texts(list@) == seq![a@, b@, c@],
{
    let list = vec![a.to_owned(), b.to_owned(), c.to_owned()];
    assert(texts(list@) =~= seq![a@, b@, c@]);
    list
}

pub fn list4(a: &str, b: &str, c: &str, d: &str) -> (list: Vec<String>)
    ensures
        texts(list@) == seq![a@, b@, c@, d@],
{
    let list = vec![a.to_owned(), b.to_owned(), c.to_owned(), d.to_owned()];
    assert(texts(list@) =~= seq![a@, b@, c@, d@]);
    list
}

pub fn list5(a: &str, b: &str, c: &str, d: &str, e: &str) -> (list: Vec<String>)
    ensures
        texts(list@) == seq![a@, b@, c@, d@, e@],
{
    let list = vec![a.to_owned(), b.to_owned(), c.to_owned(), d.to_owned(), e.to_owned()];
    assert(texts(list@) =~= seq![a@, b@, c@, d@, e@]);
    list
}

// ---------------------------------------------------------------------------
// Searching
// ---------------------------------------------------------------------------

/// `needle` stands in `text` at position `at`.
pub open spec fn stands_at(text: Seq<char>, needle: Seq<char>, at: int) -> bool {
    0 <= at && at + needle.len() <= text.len() && text.subrange(at, at + needle.len()) == needle
}

/// `needle` occurs somewhere in `text`.
pub open spec fn occurs_in(text: Seq<char>, needle: Seq<char>) -> bool {
    exists|at: int| stands_at(text, needle, at)
}

/// `text` begins with `prefix`.
pub open spec fn begins_with(text: Seq<char>, prefix: Seq<char>) -> bool {
    stands_at(text, prefix, 0)
}

/// `text` ends in `suffix`.
pub open spec fn ends_in(text: Seq<char>, suffix: Seq<char>) -> bool {
    stands_at(text, suffix, text.len() - suffix.len())
}

/// Position of the first `c` in `text`; the length of `text` when it holds none.
pub open spec fn first_at(text: Seq<char>, c: char) -> nat
    decreases text.len(),
{
    if text.len() == 0 || text[0] == c {
        0
    } else {
        1 + first_at(text.drop_first(), c)
    }
}

/// `first_at` is the least position that holds the character.
pub proof fn lemma_first_at(text: Seq<char>, c: char)
    ensures
        first_at(text, c) <= text.len(),
        first_at(text, c) < text.len() ==> text[first_at(text, c) as int] == c,
        forall|i: int| 0 <= i < first_at(text, c) ==> text[i] != c,
    decreases text.len(),
{
    if text.len() != 0 && text[0] != c {
        lemma_first_at(text.drop_first(), c);
        assert forall|i: int| 0 <= i < first_at(text, c) implies text[i] != c by {
            if i > 0 {
                assert(text.drop_first()[i - 1] == text[i]);
            }
        }
    }
}

/// A position that holds the character, with none before it, is `first_at`.
pub proof fn lemma_first_at_unique(text: Seq<char>, c: char, at: nat)
    requires
        at <= text.len(),
        at < text.len() ==> text[at as int] == c,
        forall|i: int| 0 <= i < at ==> text[i] != c,
    ensures
        first_at(text, c) == at,
{
    lemma_first_at(text, c);
}

fn matches_at(text: &Vec<char>, needle: &Vec<char>, at: usize) -> (r: bool)
    requires
        at + needle@.len() <= text@.len(),
    ensures
        r == stands_at(text@, needle@, at as int),
{
    let end: usize = text.len();
    let mut i: usize = 0;
    while i < needle.len()
        invariant
            i <= needle@.len(),
            at + needle@.len() <= text@.len() == end,
            forall|j: int| 0 <= j < i ==> text@[at + j] == needle@[j],
        decreases needle@.len() - i,
    {
        if text[at + i] != needle[i] {
            assert(text@.subrange(at as int, at + needle@.len())[i as int] != needle@[i as int]);
            return false;
        }
        i += 1;
    }
    assert(text@.subrange(at as int, at + needle@.len()) =~= needle@);
    true
}

pub fn contains(text: &str, needle: &str) -> (r: bool)
    ensures
        r == occurs_in(text@, needle@),
{
    let text_chars = chars_of(text);
    let needle_chars = chars_of(needle);
    if needle_chars.len() > text_chars.len() {
        return false;
    }
    let last: usize = text_chars.len() - needle_chars.len();
    let mut at: usize = 0;
    while at < last
        invariant
            text_chars@ == text@,
            needle_chars@ == needle@,
            last == text_chars@.len() - needle_chars@.len(),
            at <= last,
            forall|i: int| 0 <= i < at ==> !stands_at(text@, needle@, i),
        decreases last - at,
    {
        if matches_at(&text_chars, &needle_chars, at) {
            return true;
        }
        at += 1;
    }
    matches_at(&text_chars, &needle_chars, last)
}

pub fn starts_with(text: &str, prefix: &str) -> (r: bool)
    ensures
        r == begins_with(text@, prefix@),
{
    let text_chars = chars_of(text);
    let prefix_chars = chars_of(prefix);
    prefix_chars.len() <= text_chars.len() && matches_at(&text_chars, &prefix_chars, 0)
}

pub fn ends_with(text: &str, suffix: &str) -> (r: bool)
    ensures
        r == ends_in(text@, suffix@),
{
    let text_chars = chars_of(text);
    let suffix_chars = chars_of(suffix);
    suffix_chars.len() <= text_chars.len() && matches_at(
        &text_chars,
        &suffix_chars,
        text_chars.len() - suffix_chars.len(),
    )
}

/// Position of the first `c` among `chars[from..]`, counted from `from`.
pub fn find_char(chars: &Vec<char>, from: usize, c: char) -> (at: usize)
    requires
        from <= chars@.len(),
    ensures
        at == first_at(chars@.skip(from as int), c),
        from + at <= chars@.len(),
{
    let end: usize = chars.len();
    let mut at: usize = 0;
    while at < end - from && chars[from + at] != c
        invariant
            from + at <= chars@.len() == end,
            forall|i: int| 0 <= i < at ==> chars@.skip(from as int)[i] != c,
        decreases chars@.len() - from - at,
    {
        at += 1;
    }
    proof {
        lemma_first_at_unique(chars@.skip(from as int), c, at as nat);
    }
    at
}

// ---------------------------------------------------------------------------
// Trimming and lines
// ---------------------------------------------------------------------------

/// `text` without its leading white space.
pub open spec fn trimmed_start(text: Seq<char>) -> Seq<char>
    decreases text.len(),
{
    if text.len() > 0 && is_white_space(text[0]) {
        trimmed_start(text.drop_first())
    } else {
        text
    }
}

/// `text` without its trailing white space.
pub open spec fn trimmed_end(text: Seq<char>) -> Seq<char>
    decreases text.len(),
{
    if text.len() > 0 && is_white_space(text.last()) {
        trimmed_end(text.drop_last())
    } else {
        text
    }
}

/// `text` without the white space at either end.
pub open spec fn trimmed(text: Seq<char>) -> Seq<char> {
    trimmed_end(trimmed_start(text))
}

/// What is left of a text when it is trimmed is a part of it, the one that is given
/// back, and has no white space left to trim.
pub proof fn lemma_trimmed(text: Seq<char>) -> (r: (int, int))
    ensures
        0 <= r.0 <= r.1 <= text.len(),
        trimmed(text) == text.subrange(r.0, r.1),
        trimmed(text).len() > 0 ==> !is_white_space(trimmed(text)[0]) && !is_white_space(
            trimmed(text).last(),
        ),
        trimmed(trimmed(text)) == trimmed(text),
        text.len() > 0 && !is_white_space(text[0]) && !is_white_space(text.last()) ==> trimmed(text)
            == text,
{
    let from = lemma_trimmed_start(text);
    let to = lemma_trimmed_end(trimmed_start(text));
    assert(text.skip(from).take(to) =~= text.subrange(from, from + to));
    (from, from + to)
}

proof fn lemma_trimmed_start(text: Seq<char>) -> (from: int)
    ensures
        0 <= from <= text.len(),
        trimmed_start(text) == text.skip(from),
        from < text.len() ==> !is_white_space(text[from]),
    decreases text.len(),
{
    if text.len() > 0 && is_white_space(text[0]) {
        let rest = lemma_trimmed_start(text.drop_first());
        assert(text.drop_first().skip(rest) =~= text.skip(rest + 1));
        rest + 1
    } else {
        assert(text.skip(0) =~= text);
        0
    }
}

proof fn lemma_trimmed_end(text: Seq<char>) -> (to: int)
    ensures
        0 <= to <= text.len(),
        trimmed_end(text) == text.take(to),
        to > 0 ==> !is_white_space(text[to - 1]),
    decreases text.len(),
{
    if text.len() > 0 && is_white_space(text.last()) {
        let to = lemma_trimmed_end(text.drop_last());
        assert(text.drop_last().take(to) =~= text.take(to));
        to
    } else {
        assert(text.take(text.len() as int) =~= text);
        text.len() as int
    }
}

/// The text without the white space at either end.
pub fn trim(text: &str) -> (r: String)
    ensures
        r@ == trimmed(text@),
{
    let chars = chars_of(text);
    let mut from: usize = 0;
    assert(chars@.skip(0) =~= text@);
    while from < chars.len() && white_space(chars[from])
        invariant
            from <= chars@.len(),
            chars@ == text@,
            trimmed_start(chars@.skip(from as int)) == trimmed_start(text@),
        decreases chars@.len() - from,
    {
        assert(chars@.skip(from as int).drop_first() =~= chars@.skip(from + 1));
        from += 1;
    }
    let ghost rest = chars@.skip(from as int);
    assert(trimmed_start(text@) == rest);
    let mut to: usize = chars.len();
    assert(chars@.subrange(from as int, to as int) =~= rest);
    while to > from && white_space(chars[to - 1])
        invariant
            from <= to <= chars@.len(),
            trimmed_end(chars@.subrange(from as int, to as int)) == trimmed_end(rest),
        decreases to,
    {
        assert(chars@.subrange(from as int, to as int).drop_last() =~= chars@.subrange(
            from as int,
            to - 1,
        ));
        to -= 1;
    }
    text_of(&chars, from, to)
}

/// A line without the carriage return of a `\r\n` line ending.
pub open spec fn without_cr(line: Seq<char>) -> Seq<char> {
    if line.len() > 0 && line.last() == '\r' {
        line.drop_last()
    } else {
        line
    }
}

/// The lines of a text: ended by `\n` or `\r\n`, the last ending optional.
pub open spec fn lines_of(text: Seq<char>) -> Seq<Seq<char>>
    decreases text.len(),
{
    let end = first_at(text, '\n') as int;
    if text.len() == 0 {
        Seq::empty()
    } else if end < text.len() {
        seq![without_cr(text.take(end))] + lines_of(text.skip(end + 1))
    } else {
        seq![text]
    }
}

/// The lines of the text, in order, without their line endings.
pub fn lines(text: &str) -> (r: Vec<String>)
    ensures
        texts(r@) == lines_of(text@),
{
    let chars = chars_of(text);
    let mut r: Vec<String> = Vec::new();
    let mut from: usize = 0;
    proof {
        assert(chars@.skip(0) =~= text@);
        assert(texts(r@) + lines_of(text@) =~= lines_of(text@));
    }
    while from < chars.len()
        invariant
            from <= chars@.len(),
            texts(r@) + lines_of(chars@.skip(from as int)) == lines_of(text@),
        decreases chars@.len() - from,
    {
        let ghost rest = chars@.skip(from as int);
        let ghost done = texts(r@);
        let length: usize = find_char(&chars, from, '\n');
        let end: usize = from + length;
        if end < chars.len() {
            let to: usize = if length > 0 && chars[end - 1] == '\r' {
                end - 1
            } else {
                end
            };
            let line = text_of(&chars, from, to);
            assert(line@ =~= without_cr(rest.take(length as int)));
            r.push(line);
            assert(texts(r@) =~= done.push(line@));
            assert(rest.skip(length + 1) =~= chars@.skip(end + 1));
            assert(done.push(line@) + lines_of(chars@.skip(end + 1)) =~= done + (seq![line@]
                + lines_of(chars@.skip(end + 1))));
            from = end + 1;
        } else {
            let line = text_of(&chars, from, end);
            assert(line@ =~= rest);
            r.push(line);
            assert(texts(r@) =~= done.push(line@));
            assert(chars@.skip(end as int) =~= Seq::<char>::empty());
            assert(done.push(line@) + lines_of(chars@.skip(end as int)) =~= done + seq![line@]);
            from = end;
        }
    }
    assert(chars@.skip(from as int) =~= Seq::<char>::empty());
    assert(texts(r@) + lines_of(Seq::<char>::empty()) =~= texts(r@));
    r
}

/// The texts that are not empty, in order.
pub open spec fn non_empty(list: Seq<Seq<char>>) -> Seq<Seq<char>> {
    list.filter(|text: Seq<char>| text.len() > 0)
}

/// The lines of a text that hold anything but white space, without the white
/// space around them.
pub open spec fn entries_of(text: Seq<char>) -> Seq<Seq<char>> {
    non_empty(lines_of(text).map_values(|line: Seq<char>| trimmed(line)))
}

pub fn entries(text: &str) -> (r: Vec<String>)
    ensures
        texts(r@) == entries_of(text@),
{
    let all = lines(text);
    let ghost list = lines_of(text@).map_values(|line: Seq<char>| trimmed(line));
    let mut r: Vec<String> = Vec::new();
    let mut i: usize = 0;
    assert(texts(r@) =~= non_empty(list.take(0)));
    while i < all.len()
        invariant
            i <= all@.len(),
            texts(all@) == lines_of(text@),
            list == lines_of(text@).map_values(|line: Seq<char>| trimmed(line)),
            texts(r@) == non_empty(list.take(i as int)),
        decreases all@.len() - i,
    {
        let entry = trim(&all[i]);
        assert(texts(all@)[i as int] == all@[i as int]@);
        assert(entry@ == list[i as int]);
        assert(list.take(i + 1).drop_last() =~= list.take(i as int));
        let ghost before = texts(r@);
        proof {
            reveal(Seq::filter);
        }
        if !entry.as_str().is_empty() {
            r.push(entry);
            assert(texts(r@) =~= before.push(entry@));
        }
        i += 1;
    }
    assert(list.take(i as int) =~= list);
    r
}

// ---------------------------------------------------------------------------
// Numbers
// ---------------------------------------------------------------------------

/// The decimal digit for a number below ten.
pub open spec fn digit(n: nat) -> char {
    (48 + n) as char
}

/// A number in decimal.
pub open spec fn decimal(n: nat) -> Seq<char>
    decreases n,
{
    if n < 10 {
        seq![digit(n)]
    } else {
        decimal(n / 10).push(digit(n % 10))
    }
}

/// A number in decimal, filled up with zeros on the left to `width` digits.
pub open spec fn zero_padded(n: nat, width: nat) -> Seq<char> {
    let digits = decimal(n);
    if digits.len() < width {
        Seq::new((width - digits.len()) as nat, |i: int| '0') + digits
    } else {
        digits
    }
}

/// A signed number in decimal.
pub open spec fn signed_decimal(n: int) -> Seq<char> {
    if n < 0 {
        seq!['-'] + decimal((-n) as nat)
    } else {
        decimal(n as nat)
    }
}

/// Decimal text is one or more digits.
pub proof fn lemma_decimal_digits(n: nat)
    ensures
        decimal(n).len() > 0,
        forall|i: int| 0 <= i < decimal(n).len() ==> '0' <= #[trigger] decimal(n)[i] <= '9',
    decreases n,
{
    if n >= 10 {
        lemma_decimal_digits(n / 10);
    }
}

pub fn to_decimal(n: u64) -> (text: String)
    ensures
        text@ == decimal(n as nat),
    decreases n,
{
    let mut text = if n < 10 {
        String::new()
    } else {
        to_decimal(n / 10)
    };
    let last: u8 = (n % 10) as u8;
    text.push((48 + last) as char);
    assert(text@ =~= decimal(n as nat));
    text
}

pub fn to_zero_padded(n: u64, width: usize) -> (text: String)
    ensures
        text@ == zero_padded(n as nat, width as nat),
{
    let digits = to_decimal(n);
    let length: usize = chars_of(&digits).len();
    let mut text = String::new();
    let mut missing: usize = if length < width {
        width - length
    } else {
        0
    };
    let ghost all = missing;
    while missing > 0
        invariant
            missing <= all,
            text@ == Seq::new((all - missing) as nat, |i: int| '0'),
        decreases missing,
    {
        text.push('0');
        missing -= 1;
    }
    text.append(&digits);
    assert(text@ =~= zero_padded(n as nat, width as nat));
    text
}

pub fn to_signed_decimal(n: i32) -> (text: String)
    ensures
        text@ == signed_decimal(n as int),
{
    if n < 0 {
        let digits = to_decimal((-(n as i64)) as u64);
        let text = join2("-", &digits);
        proof {
            reveal_strlit("-");
            assert("-"@ =~= seq!['-']);
        }
        text
    } else {
        to_decimal(n as u64)
    }
}

// ---------------------------------------------------------------------------
// Encodings
// ---------------------------------------------------------------------------

/// What `String::from_utf8_lossy` makes of bytes that are not valid UTF-8.
pub uninterp spec fn utf8_repaired(bytes: Seq<u8>) -> Seq<char>;

/// Bytes read as UTF-8, come what may: valid UTF-8 is decoded as it stands.
pub open spec fn utf8_lossy(bytes: Seq<u8>) -> Seq<char> {
    if valid_utf8(bytes) {
        decode_utf8(bytes)
    } else {
        utf8_repaired(bytes)
    }
}

/// `String::from_utf8_lossy`: valid UTF-8 is decoded as it stands; what is not
/// valid is replaced in a way that only the name `utf8_repaired` records.
#[verifier::external_body]
pub(crate) fn from_utf8_lossy(bytes: &[u8]) -> (text: String)
    ensures
        valid_utf8(bytes@) ==> text@ == decode_utf8(bytes@),
        !valid_utf8(bytes@) ==> text@ == utf8_repaired(bytes@),
{
    String::from_utf8_lossy(bytes).into_owned()
}

/// `String::from_utf8`: the text when the bytes are valid UTF-8, else nothing.
#[verifier::external_body]
pub(crate) fn from_utf8(bytes: Vec<u8>) -> (text: Option<String>)
    ensures
        text is Some <==> valid_utf8(bytes@),
        text matches Some(t) ==> t@ == decode_utf8(bytes@),
{
    String::from_utf8(bytes).ok()
}

pub open spec fn is_high_surrogate(unit: u16) -> bool {
    0xd800 <= unit <= 0xdbff
}

pub open spec fn is_low_surrogate(unit: u16) -> bool {
    0xdc00 <= unit <= 0xdfff
}

/// UTF-16 decoded: a high surrogate and the low surrogate behind it give one
/// character, a surrogate without its partner gives U+FFFD, and every other
/// unit is a character by itself.
pub open spec fn decode_utf16(units: Seq<u16>) -> Seq<char>
    decreases units.len(),
{
    if units.len() == 0 {
        Seq::empty()
    } else if !is_high_surrogate(units[0]) && !is_low_surrogate(units[0]) {
        seq![units[0] as char] + decode_utf16(units.skip(1))
    } else if is_high_surrogate(units[0]) && units.len() > 1 && is_low_surrogate(units[1]) {
        seq![(0x10000 + (units[0] - 0xd800) * 0x400 + (units[1] - 0xdc00)) as char]
            + decode_utf16(units.skip(2))
    } else {
        seq!['\u{fffd}'] + decode_utf16(units.skip(1))
    }
}

/// `String::from_utf16_lossy`: UTF-16 decoded, with U+FFFD for what is invalid.
#[verifier::external_body]
pub(crate) fn from_utf16_lossy(units: &[u16]) -> (text: String)
    ensures
        text@ == decode_utf16(units@),
{
    String::from_utf16_lossy(units)
}

/// What `str::to_lowercase` makes of a text that is not all ASCII.
pub uninterp spec fn unicode_lowercase(text: Seq<char>) -> Seq<char>;

/// A text in lower case: ASCII text has its capitals lowered one for one.
pub open spec fn lowercase(text: Seq<char>) -> Seq<char> {
    if is_ascii_chars(text) {
        text.map_values(|c: char| ascii_lower(c))
    } else {
        unicode_lowercase(text)
    }
}

/// `str::to_lowercase`: ASCII text has its capitals lowered one for one; the
/// rest of Unicode's case mapping is recorded by the name `unicode_lowercase`
/// only.
#[verifier::external_body]
pub(crate) fn to_lowercase(text: &str) -> (lower: String)
    ensures
        is_ascii_chars(text@) ==> lower@ == text@.map_values(|c: char| ascii_lower(c)),
        !is_ascii_chars(text@) ==> lower@ == unicode_lowercase(text@),
{
    text.to_lowercase()
}

/// What `{:?}` prints for a text.
pub uninterp spec fn debug_quoted(text: Seq<char>) -> Seq<char>;

/// `<str as Debug>::fmt`: the text in quotes, with escapes.
#[verifier::external_body]
pub(crate) fn to_debug_quoted(text: &str) -> (quoted: String)
    ensures
        quoted@ == debug_quoted(text@),
{
    format!("{:?}", text)
}

// ---------------------------------------------------------------------------
// Keeping the end of a text
// ---------------------------------------------------------------------------

/// The longest end of `text` that takes at most `max_bytes` in UTF-8.
pub open spec fn longest_end(text: Seq<char>, max_bytes: nat) -> Seq<char>
    decreases text.len(),
{
    if text.len() == 0 || encode_utf8(text).len() <= max_bytes {
        text
    } else {
        longest_end(text.drop_first(), max_bytes)
    }
}

/// Bytes that one character takes in UTF-8.
pub open spec fn utf8_width(c: char) -> nat {
    encode_scalar(c as u32).len()
}

pub fn width_of(c: char) -> (width: usize)
    ensures
        width == utf8_width(c),
        1 <= width <= 4,
{
    let code: u32 = c as u32;
    if code <= 0x7f {
        1
    } else if code <= 0x7ff {
        2
    } else if code <= 0xffff {
        3
    } else {
        4
    }
}

/// An end of the text that fits, and that one more character would make too
/// long, is the longest that fits.
proof fn lemma_longest_end(text: Seq<char>, max_bytes: nat, from: int)
    requires
        0 <= from <= text.len(),
        encode_utf8(text.skip(from)).len() <= max_bytes,
        from > 0 ==> encode_utf8(text.skip(from - 1)).len() > max_bytes,
    ensures
        longest_end(text, max_bytes) == text.skip(from),
    decreases text.len(),
{
    if from == 0 {
        assert(text.skip(0) =~= text);
    } else {
        lemma_longer_end(text, 0, from - 1);
        assert(text.skip(0) =~= text);
        assert(text.drop_first().skip(from - 1) =~= text.skip(from));
        if from > 1 {
            assert(text.drop_first().skip(from - 2) =~= text.skip(from - 1));
        }
        lemma_longest_end(text.drop_first(), max_bytes, from - 1);
    }
}

/// The further an end of a text reaches back, the more bytes it takes.
proof fn lemma_longer_end(text: Seq<char>, from: int, to: int)
    requires
        0 <= from <= to <= text.len(),
    ensures
        encode_utf8(text.skip(to)).len() <= encode_utf8(text.skip(from)).len(),
    decreases to - from,
{
    if from < to {
        lemma_longer_end(text, from + 1, to);
        assert(text.skip(from).drop_first() =~= text.skip(from + 1));
    }
}

/// Keeps the end of a text: as many whole characters as fit in `max_bytes`.
///
/// A limit above zero has to hold the last character.
pub fn tail(text: &str, max_bytes: usize) -> (r: String)
    requires
        encode_utf8(text@).len() <= max_bytes || max_bytes == 0 || utf8_width(text@.last())
            <= max_bytes,
    ensures
        r@ == longest_end(text@, max_bytes as nat),
{
    let chars = chars_of(text);
    let mut from: usize = chars.len();
    let mut used: usize = 0;
    assert(chars@.skip(from as int) =~= Seq::<char>::empty());
    while from > 0 && width_of(chars[from - 1]) <= max_bytes - used
        invariant
            from <= chars@.len(),
            used <= max_bytes,
            used == encode_utf8(chars@.skip(from as int)).len(),
        decreases from,
    {
        assert(chars@.skip(from - 1).drop_first() =~= chars@.skip(from as int));
        from -= 1;
        used += width_of(chars[from]);
    }
    proof {
        if from > 0 {
            assert(chars@.skip(from - 1).drop_first() =~= chars@.skip(from as int));
        }
        lemma_longest_end(chars@, max_bytes as nat, from as int);
        assert(chars@.skip(from as int) =~= chars@.subrange(from as int, chars@.len() as int));
    }
    text_of(&chars, from, chars.len())
}

// ---------------------------------------------------------------------------
// Laws
// ---------------------------------------------------------------------------

/// Which characters are ASCII letters and digits, by their numbers, and what lower
/// case does to them: a capital goes up by 32, everything else stays.
pub proof fn law_ascii_characters(c: char)
    ensures
        is_ascii_alphanumeric(c) <==> 48 <= c as int <= 57 || 65 <= c as int <= 90 || 97 <= c as int
            <= 122,
        65 <= c as int <= 90 ==> ascii_lower(c) as int == c as int + 32,
        !(65 <= c as int <= 90) ==> ascii_lower(c) == c,
        ascii_lower(ascii_lower(c)) == ascii_lower(c),
{
}

/// Which characters are white space, by their numbers.
pub proof fn law_white_space_characters(c: char)
    ensures
        is_white_space(c) <==> {
            ||| 9 <= c as int <= 13
            ||| c as int == 32
            ||| c as int == 133
            ||| c as int == 160
            ||| c as int == 5760
            ||| 8192 <= c as int <= 8202
            ||| c as int == 8232
            ||| c as int == 8233
            ||| c as int == 8239
            ||| c as int == 8287
            ||| c as int == 12288
        },
{
}

/// A list of texts is modelled text for text, in order, with none left out.
pub proof fn law_texts_stand_for_their_list(list: Seq<String>)
    ensures
        texts(list).len() == list.len(),
        forall|i: int| 0 <= i < list.len() ==> #[trigger] texts(list)[i] == list[i]@,
{
}

/// What a text was put together from is found in it: at its start, at its end and
/// in between.
pub proof fn law_parts_are_found(before: Seq<char>, part: Seq<char>, after: Seq<char>)
    ensures
        occurs_in(before + part + after, part),
        begins_with(part + after, part),
        ends_in(before + part, part),
{
    let whole = before + part + after;
    let at = before.len() as int;
    assert(whole.subrange(at, at + part.len()) =~= part);
    assert(stands_at(whole, part, at));
    assert((part + after).subrange(0, part.len() as int) =~= part);
    assert((before + part).subrange(at, at + part.len()) =~= part);
}

/// Where a text is found, the other one is put together from it. Gives what stands
/// before and behind it.
pub proof fn law_what_is_found_is_a_part(text: Seq<char>, part: Seq<char>) -> (r: (
    Seq<char>,
    Seq<char>,
))
    ensures
        occurs_in(text, part) ==> text == r.0 + part + r.1,
        begins_with(text, part) ==> text == part + text.skip(part.len() as int),
        ends_in(text, part) ==> text == text.take(text.len() - part.len()) + part,
{
    if begins_with(text, part) {
        assert(text =~= text.subrange(0, part.len() as int) + text.skip(part.len() as int));
    }
    if ends_in(text, part) {
        let at = text.len() - part.len();
        assert(text =~= text.take(at) + text.subrange(at, at + part.len()));
    }
    if occurs_in(text, part) {
        let at = choose|at: int| stands_at(text, part, at);
        assert(text =~= text.take(at) + text.subrange(at, at + part.len()) + text.skip(
            at + part.len(),
        ));
        (text.take(at), text.skip(at + part.len()))
    } else {
        (text, text)
    }
}

/// All of these characters are white space.
pub open spec fn is_blank(text: Seq<char>) -> bool {
    forall|i: int| 0 <= i < text.len() ==> is_white_space(#[trigger] text[i])
}

proof fn lemma_trimmed_start_of(before: Seq<char>, rest: Seq<char>)
    requires
        is_blank(before),
        rest.len() > 0 ==> !is_white_space(rest[0]),
    ensures
        trimmed_start(before + rest) == rest,
    decreases before.len(),
{
    if before.len() > 0 {
        assert(is_white_space(before[0]));
        assert((before + rest).drop_first() =~= before.drop_first() + rest);
        assert forall|i: int| 0 <= i < before.drop_first().len() implies is_white_space(
            #[trigger] before.drop_first()[i],
        ) by {
            assert(is_white_space(before[i + 1]));
        }
        lemma_trimmed_start_of(before.drop_first(), rest);
    } else {
        assert(before + rest =~= rest);
    }
}

proof fn lemma_trimmed_end_of(rest: Seq<char>, after: Seq<char>)
    requires
        is_blank(after),
        rest.len() > 0 ==> !is_white_space(rest.last()),
    ensures
        trimmed_end(rest + after) == rest,
    decreases after.len(),
{
    if after.len() > 0 {
        assert(is_white_space(after[after.len() - 1]));
        assert((rest + after).drop_last() =~= rest + after.drop_last());
        assert forall|i: int| 0 <= i < after.drop_last().len() implies is_white_space(
            #[trigger] after.drop_last()[i],
        ) by {
            assert(is_white_space(after[i]));
        }
        lemma_trimmed_end_of(rest, after.drop_last());
    } else {
        assert(rest + after =~= rest);
    }
}

/// Trimming takes away the white space at either end, all of it and nothing else:
/// what stands between comes back, whatever it holds inside.
pub proof fn law_trimming_keeps_what_stands_between(
    before: Seq<char>,
    kept: Seq<char>,
    after: Seq<char>,
)
    requires
        is_blank(before),
        is_blank(after),
        kept.len() > 0 ==> !is_white_space(kept[0]) && !is_white_space(kept.last()),
    ensures
        trimmed(before + kept + after) == kept,
{
    if kept.len() > 0 {
        assert(before + kept + after =~= before + (kept + after));
        lemma_trimmed_start_of(before, kept + after);
        lemma_trimmed_end_of(kept, after);
    } else {
        let all = before + kept + after;
        let none = Seq::<char>::empty();
        assert forall|i: int| 0 <= i < all.len() implies is_white_space(#[trigger] all[i]) by {
            if i < before.len() {
                assert(all[i] == before[i]);
            } else {
                assert(all[i] == after[i - before.len()]);
            }
        }
        lemma_trimmed_start_of(all, none);
        assert(all + none =~= all);
        assert(kept =~= none);
    }
}

/// Every text is white space, then what trimming keeps, then white space. Gives the
/// white space on either side.
pub proof fn law_trimming_takes_white_space_only(text: Seq<char>) -> (r: (Seq<char>, Seq<char>))
    ensures
        text == r.0 + trimmed(text) + r.1,
        is_blank(r.0),
        is_blank(r.1),
        trimmed(text).len() > 0 ==> !is_white_space(trimmed(text)[0]) && !is_white_space(
            trimmed(text).last(),
        ),
        trimmed(text).len() == 0 <==> is_blank(text),
{
    let from = lemma_blank_start(text);
    let rest = text.skip(from);
    let to = lemma_blank_end(rest);
    let before = text.take(from);
    let kept = rest.take(to);
    let after = rest.skip(to);
    assert(text =~= before + kept + after);
    if to == 0 && rest.len() > 0 {
        assert(is_white_space(after[0]));
    }
    law_trimming_keeps_what_stands_between(before, kept, after);
    if kept.len() == 0 {
        assert forall|i: int| 0 <= i < text.len() implies is_white_space(#[trigger] text[i]) by {
            if i < from {
                assert(is_white_space(before[i]));
            } else {
                assert(is_white_space(after[i - from]));
            }
        }
    } else {
        assert(text[from] == kept[0]);
    }
    (before, after)
}

proof fn lemma_blank_start(text: Seq<char>) -> (from: int)
    ensures
        0 <= from <= text.len(),
        is_blank(text.take(from)),
        from < text.len() ==> !is_white_space(text[from]),
    decreases text.len(),
{
    if text.len() > 0 && is_white_space(text[0]) {
        let rest = lemma_blank_start(text.drop_first());
        assert forall|i: int| 0 <= i < rest + 1 implies is_white_space(
            #[trigger] text.take(rest + 1)[i],
        ) by {
            if i > 0 {
                assert(is_white_space(text.drop_first().take(rest)[i - 1]));
            }
        }
        rest + 1
    } else {
        0
    }
}

proof fn lemma_blank_end(text: Seq<char>) -> (to: int)
    ensures
        0 <= to <= text.len(),
        is_blank(text.skip(to)),
        to > 0 ==> !is_white_space(text[to - 1]),
    decreases text.len(),
{
    if text.len() > 0 && is_white_space(text.last()) {
        let to = lemma_blank_end(text.drop_last());
        assert forall|i: int| 0 <= i < text.skip(to).len() implies is_white_space(
            #[trigger] text.skip(to)[i],
        ) by {
            if i + to < text.len() - 1 {
                assert(is_white_space(text.drop_last().skip(to)[i]));
            }
        }
        to
    } else {
        text.len() as int
    }
}

/// A line comes off the front of a text whole, without its line ending, and the
/// rest of the text has the other lines. The last line needs no ending.
pub proof fn law_a_line_comes_off(line: Seq<char>, rest: Seq<char>)
    requires
        !line.contains('\n'),
    ensures
        line.len() == 0 || line.last() != '\r' ==> lines_of(line + seq!['\n'] + rest) == seq![line]
            + lines_of(rest),
        lines_of(line + seq!['\r', '\n'] + rest) == seq![line] + lines_of(rest),
        line.len() > 0 ==> lines_of(line) == seq![line],
        lines_of(Seq::empty()) == Seq::<Seq<char>>::empty(),
{
    let plain = line + seq!['\n'] + rest;
    let marked = line + seq!['\r', '\n'] + rest;
    let length = line.len();
    assert forall|i: int| 0 <= i < length implies line[i] != '\n' by {
        assert(line.contains(line[i]));
    }
    lemma_first_at_unique(plain, '\n', length);
    lemma_first_at_unique(marked, '\n', length + 1);
    lemma_first_at_unique(line, '\n', length);
    assert(plain.take(length as int) =~= line);
    assert(plain.skip(length as int + 1) =~= rest);
    assert(marked.take(length as int + 1) =~= line.push('\r'));
    assert(line.push('\r').drop_last() =~= line);
    assert(marked.skip(length as int + 2) =~= rest);
}

/// Lines with a line ending behind each of them, as one text.
pub open spec fn ended(lines: Seq<Seq<char>>, ending: Seq<char>) -> Seq<char>
    decreases lines.len(),
{
    if lines.len() == 0 {
        Seq::empty()
    } else {
        lines[0] + ending + ended(lines.drop_first(), ending)
    }
}

/// Lines that were written come back as they were, in order and none left out,
/// whichever line ending stands behind them.
pub proof fn law_lines_come_back(written: Seq<Seq<char>>)
    requires
        forall|i: int|
            0 <= i < written.len() ==> !(#[trigger] written[i]).contains('\n') && (written[i].len()
                == 0 || written[i].last() != '\r'),
    ensures
        lines_of(ended(written, "\n"@)) == written,
        lines_of(ended(written, "\r\n"@)) == written,
    decreases written.len(),
{
    reveal_strlit("\n");
    reveal_strlit("\r\n");
    assert("\n"@ =~= seq!['\n']);
    assert("\r\n"@ =~= seq!['\r', '\n']);
    if written.len() > 0 {
        let rest = written.drop_first();
        assert forall|i: int| 0 <= i < rest.len() implies !(#[trigger] rest[i]).contains('\n') && (
        rest[i].len() == 0 || rest[i].last() != '\r') by {
            assert(rest[i] == written[i + 1]);
        }
        law_lines_come_back(rest);
        assert(!written[0].contains('\n'));
        law_a_line_comes_off(written[0], ended(rest, "\n"@));
        law_a_line_comes_off(written[0], ended(rest, "\r\n"@));
        assert(seq![written[0]] + rest =~= written);
    } else {
        assert(written =~= Seq::<Seq<char>>::empty());
    }
}

/// A line that holds anything but white space is one entry, trimmed; any other line
/// is none. The entries of the rest follow.
#[verifier::rlimit(40)]
pub proof fn law_an_entry_comes_off(line: Seq<char>, rest: Seq<char>)
    requires
        !line.contains('\n'),
    ensures
        is_blank(line) ==> entries_of(line + seq!['\n'] + rest) == entries_of(rest),
        !is_blank(line) ==> entries_of(line + seq!['\n'] + rest) == seq![trimmed(line)]
            + entries_of(rest),
        is_blank(line) ==> entries_of(line) == Seq::<Seq<char>>::empty(),
        !is_blank(line) ==> entries_of(line) == seq![trimmed(line)],
{
    let (before, after) = law_trimming_takes_white_space_only(line);
    let bare = without_cr(line);
    let trim = |l: Seq<char>| trimmed(l);
    let some = |t: Seq<char>| t.len() > 0;
    assert(trimmed(bare) == trimmed(line)) by {
        if line.len() > 0 && line.last() == '\r' {
            let (b, a) = law_trimming_takes_white_space_only(bare);
            let end = a.push('\r');
            assert forall|i: int| 0 <= i < end.len() implies is_white_space(#[trigger] end[i]) by {
                if i < a.len() {
                    assert(is_white_space(a[i]));
                }
            }
            assert(line =~= bare.push('\r'));
            assert(bare.push('\r') =~= b + trimmed(bare) + end);
            law_trimming_keeps_what_stands_between(b, trimmed(bare), end);
        }
    }
    let whole = line + seq!['\n'] + rest;
    assert(!bare.contains('\n')) by {
        if bare.contains('\n') {
            let i = choose|i: int| 0 <= i < bare.len() && bare[i] == '\n';
            assert(line[i] == '\n');
        }
    }
    if bare.len() < line.len() {
        law_a_line_comes_off(bare, rest);
        assert(whole =~= bare + seq!['\r', '\n'] + rest);
    } else {
        law_a_line_comes_off(line, rest);
    }
    assert(lines_of(whole) == seq![bare] + lines_of(rest));
    let first = seq![trimmed(line)];
    assert((seq![bare] + lines_of(rest)).map_values(trim) =~= first + lines_of(rest).map_values(
        trim,
    ));
    Seq::filter_distributes_over_add(first, lines_of(rest).map_values(trim), some);
    reveal(Seq::filter);
    assert(first.drop_last() =~= Seq::<Seq<char>>::empty());
    assert(first.drop_last().filter(some) =~= Seq::<Seq<char>>::empty());
    assert(non_empty(first) =~= if is_blank(line) {
        Seq::<Seq<char>>::empty()
    } else {
        first
    });
    assert(Seq::<Seq<char>>::empty() + entries_of(rest) =~= entries_of(rest));
    if line.len() > 0 {
        law_a_line_comes_off(line, rest);
        assert(lines_of(line).map_values(trim) =~= first);
    } else {
        assert(line =~= Seq::<char>::empty());
        law_a_line_comes_off(line, rest);
        assert(lines_of(line).map_values(trim) =~= Seq::<Seq<char>>::empty());
    }
}

proof fn lemma_filtered(list: Seq<Seq<char>>, i: int)
    requires
        0 <= i < list.len(),
        list[i].len() > 0,
    ensures
        non_empty(list).contains(list[i]),
    decreases list.len(),
{
    reveal(Seq::filter);
    let some = |t: Seq<char>| t.len() > 0;
    let before = list.drop_last().filter(some);
    if i < list.len() - 1 {
        lemma_filtered(list.drop_last(), i);
        let k = choose|k: int| 0 <= k < before.len() && before[k] == list[i];
        assert(list.filter(some)[k] == list[i]);
    } else {
        assert(list.filter(some).last() == list[i]);
    }
}

/// What is left of a list without its empty texts was in the list, and is not empty.
pub proof fn lemma_only_entries(list: Seq<Seq<char>>)
    ensures
        forall|t: Seq<char>| #[trigger]
            non_empty(list).contains(t) ==> t.len() > 0 && list.contains(t),
    decreases list.len(),
{
    reveal(Seq::filter);
    let some = |t: Seq<char>| t.len() > 0;
    if list.len() > 0 {
        let before = list.drop_last();
        lemma_only_entries(before);
        assert forall|t: Seq<char>| #[trigger] non_empty(list).contains(t) implies t.len() > 0
            && list.contains(t) by {
            let k = choose|k: int| 0 <= k < list.filter(some).len() && list.filter(some)[k] == t;
            if k < before.filter(some).len() {
                assert(before.filter(some)[k] == t);
                assert(non_empty(before).contains(t));
                let j = choose|j: int| 0 <= j < before.len() && before[j] == t;
                assert(list[j] == t);
            } else {
                assert(list[list.len() - 1] == t);
            }
        }
    }
}

/// No line is left out of the entries of a text: each that holds anything but white
/// space is there, trimmed.
pub proof fn law_no_entry_is_left_out(text: Seq<char>, i: int)
    requires
        0 <= i < lines_of(text).len(),
        !is_blank(lines_of(text)[i]),
    ensures
        entries_of(text).contains(trimmed(lines_of(text)[i])),
{
    let list = lines_of(text).map_values(|line: Seq<char>| trimmed(line));
    law_trimming_takes_white_space_only(lines_of(text)[i]);
    lemma_filtered(list, i);
}

/// The number that decimal digits stand for.
pub open spec fn number_of(digits: Seq<char>) -> int
    decreases digits.len(),
{
    if digits.len() == 0 {
        0
    } else {
        10 * number_of(digits.drop_last()) + (digits.last() as int - 48)
    }
}

/// Decimal text stands for its number: it has digits only, none of them a needless
/// zero in front, and reading them gives the number again.
pub proof fn law_decimal_text_is_its_number(n: nat)
    ensures
        number_of(decimal(n)) == n,
        decimal(n).len() > 0,
        forall|i: int| 0 <= i < decimal(n).len() ==> 48 <= #[trigger] decimal(n)[i] as int <= 57,
        decimal(n).len() > 1 ==> decimal(n)[0] != '0',
        n > 0 ==> decimal(n)[0] != '0',
    decreases n,
{
    if n >= 10 {
        law_decimal_text_is_its_number(n / 10);
        assert(decimal(n).drop_last() =~= decimal(n / 10));
        assert(decimal(n).last() as int == 48 + n % 10);
    } else {
        assert(decimal(n).drop_last() =~= Seq::<char>::empty());
        assert(number_of(Seq::<char>::empty()) == 0);
        assert(decimal(n).last() as int == 48 + n);
    }
}

/// Two numbers have one decimal text only if they are the same.
pub proof fn law_decimal_texts_differ(a: nat, b: nat)
    ensures
        decimal(a) == decimal(b) <==> a == b,
{
    law_decimal_text_is_its_number(a);
    law_decimal_text_is_its_number(b);
}

proof fn lemma_zeros_in_front(zeros: Seq<char>, digits: Seq<char>)
    requires
        forall|i: int| 0 <= i < zeros.len() ==> #[trigger] zeros[i] == '0',
    ensures
        number_of(zeros + digits) == number_of(digits),
    decreases zeros.len() + digits.len(),
{
    if digits.len() > 0 {
        assert((zeros + digits).drop_last() =~= zeros + digits.drop_last());
        lemma_zeros_in_front(zeros, digits.drop_last());
    } else {
        assert(zeros + digits =~= zeros);
        if zeros.len() > 0 {
            assert(zeros[zeros.len() - 1] == '0');
            assert(zeros.drop_last() + digits =~= zeros.drop_last());
            assert forall|i: int| 0 <= i < zeros.drop_last().len() implies #[trigger] zeros.drop_last()[i]
                == '0' by {
                assert(zeros[i] == '0');
            }
            lemma_zeros_in_front(zeros.drop_last(), digits);
        }
    }
}

/// Padded text stands for its number too. It has at least as many digits as asked
/// for, and more only when the number needs them.
pub proof fn law_padded_text_is_its_number(n: nat, width: nat)
    ensures
        number_of(zero_padded(n, width)) == n,
        zero_padded(n, width).len() >= width,
        zero_padded(n, width).len() > 0,
        zero_padded(n, width).len() > width && n > 0 ==> zero_padded(n, width)[0] != '0',
        zero_padded(n, width).len() > width && n == 0 ==> zero_padded(n, width).len() == 1,
        forall|i: int|
            0 <= i < zero_padded(n, width).len() ==> 48 <= #[trigger] zero_padded(n, width)[i] as int
                <= 57,
{
    let digits = decimal(n);
    law_decimal_text_is_its_number(n);
    if digits.len() < width {
        let zeros = Seq::new((width - digits.len()) as nat, |i: int| '0');
        lemma_zeros_in_front(zeros, digits);
        assert forall|i: int| 0 <= i < zero_padded(n, width).len() implies 48
            <= #[trigger] zero_padded(n, width)[i] as int <= 57 by {
            if i >= zeros.len() {
                assert(zero_padded(n, width)[i] == digits[i - zeros.len()]);
            }
        }
    }
}

/// Signed text stands for its number: a minus in front of what is below zero, and
/// nothing in front of what is not.
pub proof fn law_signed_text_is_its_number(n: int)
    ensures
        n >= 0 ==> number_of(signed_decimal(n)) == n && signed_decimal(n).len() > 0,
        n > 0 ==> signed_decimal(n)[0] != '0',
        n == 0 ==> signed_decimal(n).len() == 1,
        n < 0 ==> signed_decimal(n)[0] == '-' && number_of(signed_decimal(n).skip(1)) == -n,
        n < 0 ==> signed_decimal(n).len() > 1 && signed_decimal(n)[1] != '0',
        forall|i: int|
            (n >= 0 || i > 0) && 0 <= i < signed_decimal(n).len() ==> 48
                <= #[trigger] signed_decimal(n)[i] as int <= 57,
{
    if n < 0 {
        law_decimal_text_is_its_number((-n) as nat);
        assert(signed_decimal(n).skip(1) =~= decimal((-n) as nat));
        assert(signed_decimal(n)[1] == decimal((-n) as nat)[0]);
        assert forall|i: int| 0 < i < signed_decimal(n).len() implies 48
            <= #[trigger] signed_decimal(n)[i] as int <= 57 by {
            assert(signed_decimal(n)[i] == decimal((-n) as nat)[i - 1]);
        }
    } else {
        law_decimal_text_is_its_number(n as nat);
        assert(48 <= decimal(n as nat)[0] as int);
    }
}

/// Text comes back from its UTF-8 as it was; what is not UTF-8 is repaired.
pub proof fn law_utf8_comes_back(written: Seq<char>, bytes: Seq<u8>)
    ensures
        utf8_lossy(encode_utf8(written)) == written,
        !valid_utf8(bytes) ==> utf8_lossy(bytes) == utf8_repaired(bytes),
{
    encode_utf8_valid_utf8(written);
    encode_utf8_decode_utf8(written);
}

/// The width of a character is the number of bytes that a text of that character
/// alone takes.
pub proof fn law_a_width_counts_bytes(c: char)
    ensures
        utf8_width(c) == encode_utf8(seq![c]).len(),
{
    let one = seq![c];
    assert(one.drop_first() =~= Seq::<char>::empty());
    assert(encode_utf8(one.drop_first()).len() == 0);
    assert(encode_utf8(one) == encode_scalar(one[0] as u32) + encode_utf8(one.drop_first()));
}

/// ASCII text keeps its length in lower case, and each of its characters changes by
/// itself. Other text goes by Unicode's rules as a whole.
pub proof fn law_lower_case_goes_by_characters(text: Seq<char>, i: int)
    requires
        0 <= i < text.len(),
    ensures
        is_ascii_chars(text) ==> {
            &&& lowercase(text).len() == text.len()
            &&& 65 <= text[i] as int <= 90 ==> lowercase(text)[i] as int == text[i] as int + 32
            &&& !(65 <= text[i] as int <= 90) ==> lowercase(text)[i] == text[i]
        },
        !is_ascii_chars(text) ==> lowercase(text) == unicode_lowercase(text),
{
}

/// What is kept of a text is its end: it fits, and one character more would not.
/// Gives the position that it begins at; a text that fits is kept whole.
pub proof fn law_the_longest_end_is_kept(text: Seq<char>, max_bytes: nat) -> (from: int)
    ensures
        0 <= from <= text.len(),
        longest_end(text, max_bytes) == text.skip(from),
        encode_utf8(text.skip(from)).len() <= max_bytes,
        from > 0 ==> encode_utf8(text.skip(from - 1)).len() > max_bytes,
        encode_utf8(text).len() <= max_bytes ==> longest_end(text, max_bytes) == text,
    decreases text.len(),
{
    assert(text.skip(0) =~= text);
    if text.len() == 0 || encode_utf8(text).len() <= max_bytes {
        0
    } else {
        let rest = law_the_longest_end_is_kept(text.drop_first(), max_bytes);
        assert(text.drop_first().skip(rest) =~= text.skip(rest + 1));
        if rest > 0 {
            assert(text.drop_first().skip(rest - 1) =~= text.skip(rest));
        }
        rest + 1
    }
}

} // verus!
