//! Text: the characters of a string, white space, trimming, decimal numbers
//! and joining. Every contract speaks of a string as the sequence of its
//! characters.
use vstd::prelude::*;
use vstd::string::*;

verus! {

/// `String::push`: the character is appended, nothing else changes.
pub assume_specification[ String::push ](s: &mut String, ch: char)
    ensures
        final(s)@ == old(s)@.push(ch),
;

/// `==` on string slices: they are equal exactly when they hold the same
/// characters.
pub assume_specification[ <str as PartialEq>::eq ](s: &str, other: &str) -> (same: bool)
    ensures
        same == (s@ == other@),
;

/// The characters with the Unicode property `White_Space`.
pub open spec fn white_space(ch: char) -> bool {
    ||| '\u{9}' <= ch <= '\u{d}'
    ||| ch == '\u{20}'
    ||| ch == '\u{85}'
    ||| ch == '\u{a0}'
    ||| ch == '\u{1680}'
    ||| '\u{2000}' <= ch <= '\u{200a}'
    ||| '\u{2028}' <= ch <= '\u{2029}'
    ||| ch == '\u{202f}'
    ||| ch == '\u{205f}'
    ||| ch == '\u{3000}'
}

/// Whether a character is white space.
pub fn is_white_space(ch: char) -> (answer: bool)
    ensures
        answer == white_space(ch),
{
    ('\u{9}' <= ch && ch <= '\u{d}') || ch == '\u{20}' || ch == '\u{85}' || ch == '\u{a0}' || ch
        == '\u{1680}' || ('\u{2000}' <= ch && ch <= '\u{200a}') || ('\u{2028}' <= ch && ch
        <= '\u{2029}') || ch == '\u{202f}' || ch == '\u{205f}' || ch == '\u{3000}'
}

/// The characters of a string, in order.
pub fn chars_of(text: &str) -> (chars: Vec<char>)
    ensures
        chars@ == text@,
{
    let mut chars: Vec<char> = Vec::new();
    for ch in it: text.chars()
        invariant
            it.seq() == text@,
            chars@ == text@.take(it.index() as int),
    {
        chars.push(ch);
        assert(text@.take(it.index() + 1) =~= text@.take(it.index() as int).push(ch));
    }
    assert(text@.take(text@.len() as int) =~= text@);
    chars
}

/// The string made of the characters from index `from` up to `to`.
pub fn string_of(chars: &Vec<char>, from: usize, to: usize) -> (text: String)
    requires
        from <= to <= chars@.len(),
    ensures
        text@ == chars@.subrange(from as int, to as int),
{
    let mut text = String::new();
    for i in from..to
        invariant
            from <= to <= chars@.len(),
            text@ == chars@.subrange(from as int, i as int),
    {
        text.push(chars[i]);
        assert(chars@.subrange(from as int, i + 1) =~= chars@.subrange(from as int, i as int).push(
            chars@[i as int],
        ));
    }
    text
}

/// The text between the first and the last character that is not white space;
/// empty where every character is white space.
pub open spec fn trimmed(text: Seq<char>) -> Seq<char>
    decreases text.len(),
{
    if text.len() == 0 {
        text
    } else if white_space(text.first()) {
        trimmed(text.drop_first())
    } else if white_space(text.last()) {
        trimmed(text.drop_last())
    } else {
        text
    }
}

/// Removes the white space at both ends.
pub fn trim(text: &str) -> (out: String)
    ensures
        out@ == trimmed(text@),
{
    let chars = chars_of(text);
    let mut from: usize = 0;
    let mut to: usize = chars.len();
    assert(chars@.subrange(0, chars@.len() as int) =~= text@);
    while from < to && is_white_space(chars[from])
        invariant
            from <= to == chars@.len(),
            chars@ == text@,
            trimmed(chars@.subrange(from as int, to as int)) == trimmed(text@),
        decreases to - from,
    {
        assert(chars@.subrange(from as int, to as int).drop_first() =~= chars@.subrange(
            from + 1,
            to as int,
        ));
        from = from + 1;
    }
    while from < to && is_white_space(chars[to - 1])
        invariant
            from <= to <= chars@.len(),
            chars@ == text@,
            from < to ==> !white_space(chars@[from as int]),
            trimmed(chars@.subrange(from as int, to as int)) == trimmed(text@),
        decreases to - from,
    {
        assert(chars@.subrange(from as int, to as int).drop_last() =~= chars@.subrange(
            from as int,
            to - 1,
        ));
        to = to - 1;
    }
    string_of(&chars, from, to)
}

/// The digit that stands for `n`, which is below ten.
pub open spec fn digit(n: nat) -> char {
    (48 + n) as char
}

/// The decimal numeral of `n`, without leading zeros.
pub open spec fn decimal(n: nat) -> Seq<char>
    decreases n,
{
    if n < 10 {
        seq![digit(n)]
    } else {
        decimal(n / 10).push(digit(n % 10))
    }
}

/// The decimal numeral of an integer, with a leading `-` where it is negative.
pub open spec fn signed_decimal(n: int) -> Seq<char> {
    if n < 0 {
        seq!['-'] + decimal((-n) as nat)
    } else {
        decimal(n as nat)
    }
}

/// Appends the decimal numeral of `n`.
pub fn push_decimal(out: &mut String, n: u64)
    ensures
        final(out)@ == old(out)@ + decimal(n as nat),
    decreases n,
{
    if n >= 10 {
        push_decimal(out, n / 10);
    }
    let last: u8 = (n % 10) as u8;
    out.push((48 + last) as char);
    assert(out@ =~= old(out)@ + decimal(n as nat));
}

/// The decimal numeral of `n`.
pub fn decimal_text(n: u64) -> (text: String)
    ensures
        text@ == decimal(n as nat),
{
    let mut text = String::new();
    push_decimal(&mut text, n);
    assert(text@ =~= decimal(n as nat));
    text
}

/// The decimal numeral of an integer that may be negative.
pub fn signed_decimal_text(n: i64) -> (text: String)
    ensures
        text@ == signed_decimal(n as int),
{
    let mut text = String::new();
    if n < 0 {
        text.push('-');
        let magnitude: u64 = (-(n as i128)) as u64;
        push_decimal(&mut text, magnitude);
        assert(text@ =~= signed_decimal(n as int));
    } else {
        push_decimal(&mut text, n as u64);
        assert(text@ =~= signed_decimal(n as int));
    }
    text
}

/// The number that a sequence of digits denotes.
pub open spec fn decimal_value(digits: Seq<char>) -> int
    decreases digits.len(),
{
    if digits.len() == 0 {
        0
    } else {
        decimal_value(digits.drop_last()) * 10 + (digits.last() as int - 48)
    }
}

/// A decimal numeral is not empty, holds digits only, has no leading zero
/// unless it is `0` itself, and denotes the number that it was made from.
pub proof fn law_decimal(n: nat)
    ensures
        decimal(n).len() > 0,
        forall|i: int| 0 <= i < decimal(n).len() ==> '0' <= #[trigger] decimal(n)[i] <= '9',
        n > 0 ==> decimal(n)[0] != '0',
        decimal_value(decimal(n)) == n,
    decreases n,
{
    if n < 10 {
        reveal_with_fuel(decimal_value, 2);
        assert(decimal(n).drop_last() =~= Seq::<char>::empty());
    } else {
        law_decimal(n / 10);
        assert(decimal(n).drop_last() =~= decimal(n / 10));
        assert(decimal(n)[0] == decimal(n / 10)[0]);
    }
}

/// The views of strings.
pub open spec fn views(texts: Seq<String>) -> Seq<Seq<char>> {
    Seq::new(texts.len(), |i: int| texts[i]@)
}

/// The texts one after another, with `separator` between each two.
pub open spec fn joined(texts: Seq<Seq<char>>, separator: Seq<char>) -> Seq<char>
    decreases texts.len(),
{
    if texts.len() == 0 {
        Seq::empty()
    } else if texts.len() == 1 {
        texts[0]
    } else {
        joined(texts.drop_last(), separator) + separator + texts.last()
    }
}

/// Joins strings with a separator.
pub fn join(texts: &Vec<String>, separator: &str) -> (out: String)
    ensures
        out@ == joined(views(texts@), separator@),
{
    let mut out = String::new();
    let ghost all = views(texts@);
    assert(all.take(0) =~= Seq::empty());
    for i in 0..texts.len()
        invariant
            all == views(texts@),
            out@ == joined(all.take(i as int), separator@),
    {
        if i > 0 {
            out.append(separator);
        }
        out.append(texts[i].as_str());
        assert(all.take(i + 1).drop_last() =~= all.take(i as int));
        assert(out@ =~= joined(all.take(i + 1), separator@));
    }
    assert(all.take(all.len() as int) =~= all);
    out
}

/// The views of strings are those of the single strings, in order.
pub proof fn law_views(texts: Seq<String>, i: int)
    requires
        0 <= i < texts.len(),
    ensures
        views(texts).len() == texts.len(),
        views(texts)[i] == texts[i]@,
{
}

proof fn lemma_trimmed_range(text: Seq<char>) -> (range: (int, int))
    ensures
        0 <= range.0 <= range.1 <= text.len(),
        trimmed(text) == text.subrange(range.0, range.1),
        forall|i: int| 0 <= i < range.0 ==> white_space(#[trigger] text[i]),
        forall|i: int| range.1 <= i < text.len() ==> white_space(#[trigger] text[i]),
        range.0 < range.1 ==> !white_space(text[range.0]) && !white_space(text[range.1 - 1]),
    decreases text.len(),
{
    if text.len() == 0 {
        assert(text.subrange(0, 0) =~= text);
        (0, 0)
    } else if white_space(text.first()) {
        let rest = text.drop_first();
        let (from, to) = lemma_trimmed_range(rest);
        assert(rest.subrange(from, to) =~= text.subrange(from + 1, to + 1));
        assert forall|i: int| 0 <= i < from + 1 implies white_space(#[trigger] text[i]) by {
            if i > 0 {
                assert(text[i] == rest[i - 1]);
            }
        }
        assert forall|i: int| to + 1 <= i < text.len() implies white_space(#[trigger] text[i]) by {
            assert(text[i] == rest[i - 1]);
        }
        (from + 1, to + 1)
    } else if white_space(text.last()) {
        let rest = text.drop_last();
        let (from, to) = lemma_trimmed_range(rest);
        assert(rest.subrange(from, to) =~= text.subrange(from, to));
        assert forall|i: int| 0 <= i < from implies white_space(#[trigger] text[i]) by {
            assert(text[i] == rest[i]);
        }
        assert forall|i: int| to <= i < text.len() implies white_space(#[trigger] text[i]) by {
            if i < rest.len() {
                assert(text[i] == rest[i]);
            }
        }
        (from, to)
    } else {
        assert(text.subrange(0, text.len() as int) =~= text);
        (0, text.len() as int)
    }
}

/// Trimming takes away white space at both ends, all of it, and nothing else:
/// what is left is a stretch of the text with only white space before and after
/// it, and neither begins nor ends with white space.
pub proof fn law_trimmed(text: Seq<char>)
    ensures
        exists|from: int, to: int|
            #![trigger text.subrange(from, to)]
            0 <= from <= to <= text.len() && trimmed(text) == text.subrange(from, to) && (forall|
                i: int,
            |
                0 <= i < from || to <= i < text.len() ==> white_space(#[trigger] text[i])),
        trimmed(text).len() > 0 ==> !white_space(trimmed(text).first()) && !white_space(
            trimmed(text).last(),
        ),
        trimmed(text).len() == 0 <==> forall|i: int|
            0 <= i < text.len() ==> white_space(#[trigger] text[i]),
{
    let (from, to) = lemma_trimmed_range(text);
    assert(trimmed(text) == text.subrange(from, to));
    if trimmed(text).len() > 0 {
        assert(!white_space(text[from]));
    }
}

/// Joined texts stand one after another, in order and unchanged, with the
/// separator between each two and nowhere else: joining two lists is joining
/// each and then the two results.
pub proof fn law_joined(a: Seq<Seq<char>>, b: Seq<Seq<char>>, text: Seq<char>, separator: Seq<char>)
    ensures
        joined(Seq::empty(), separator) == Seq::<char>::empty(),
        joined(seq![text], separator) == text,
        a.len() > 0 && b.len() > 0 ==> joined(a + b, separator) == joined(a, separator) + separator
            + joined(b, separator),
    decreases b.len(),
{
    if a.len() > 0 && b.len() > 0 {
        let all = a + b;
        assert(all.last() == b.last());
        assert(all.drop_last() =~= a + b.drop_last());
        if b.len() == 1 {
            assert(all.drop_last() =~= a);
            assert(joined(b, separator) == b[0]);
        } else {
            law_joined(a, b.drop_last(), text, separator);
            assert(joined(all, separator) =~= joined(a, separator) + separator + joined(
                b,
                separator,
            ));
        }
    }
}

/// The numeral of an integer begins with `-` exactly where the integer is
/// negative, and the digits denote its magnitude.
pub proof fn law_signed_decimal(n: int)
    ensures
        signed_decimal(n).len() > 0,
        signed_decimal(n)[0] == '-' <==> n < 0,
        n < 0 ==> decimal_value(signed_decimal(n).skip(1)) == -n && signed_decimal(n).skip(1)
            == decimal((-n) as nat),
        n >= 0 ==> decimal_value(signed_decimal(n)) == n && signed_decimal(n) == decimal(n as nat),
{
    if n < 0 {
        law_decimal((-n) as nat);
        assert(signed_decimal(n).skip(1) =~= decimal((-n) as nat));
    } else {
        law_decimal(n as nat);
        assert('0' <= decimal(n as nat)[0]);
    }
}

} // verus!
