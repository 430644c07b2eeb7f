//! Text building blocks: decimal and hexadecimal digits, joined lines.
use vstd::prelude::*;
use vstd::string::*;

verus! {

/// The digits that numbers are written with, in order of their value.
pub open spec fn digit_alphabet() -> Seq<char> {
    "0123456789abcdef"@
}

/// The character of a digit below sixteen, in lower case.
pub open spec fn digit_char(d: int) -> char
    recommends
        0 <= d < 16,
{
    digit_alphabet()[d]
}

/// What a character counts for as a hexadecimal digit, in either letter case.
pub open spec fn digit_value(c: char) -> Option<int> {
    if '0' <= c <= '9' {
        Some(c as int - '0' as int)
    } else if 'a' <= c <= 'f' {
        Some(c as int - 'a' as int + 10)
    } else if 'A' <= c <= 'F' {
        Some(c as int - 'A' as int + 10)
    } else {
        None
    }
}

/// Reading a written digit gives the digit back.
pub proof fn lemma_digit_round_trip(d: int)
    requires
        0 <= d < 16,
    ensures
        digit_value(digit_char(d)) == Some(d),
        digit_char(d) != '-',
{
    reveal_strlit("0123456789abcdef");
}

/// Appends the character of one digit.
pub(crate) fn push_digit(text: &mut String, d: u8)
    requires
        d < 16,
    ensures
        final(text)@ == old(text)@.push(digit_char(d as int)),
{
    let alphabet = "0123456789abcdef";
    proof {
        reveal_strlit("0123456789abcdef");
    }
    assert(alphabet.is_ascii());
    let from: usize = d as usize;
    text.append(alphabet.substring_ascii(from, from + 1));
    assert(text@ =~= old(text)@.push(digit_char(d as int)));
}

/// What a character counts for as a hexadecimal digit.
pub(crate) fn read_digit(c: char) -> (d: Option<u8>)
    ensures
        match d {
            Some(d) => digit_value(c) == Some(d as int) && d < 16,
            None => digit_value(c) is None,
        },
{
    let code: u32 = c as u32;
    if 48 <= code && code <= 57 {
        Some((code - 48) as u8)
    } else if 97 <= code && code <= 102 {
        Some((code - 97 + 10) as u8)
    } else if 65 <= code && code <= 70 {
        Some((code - 65 + 10) as u8)
    } else {
        None
    }
}

/// A natural number in decimal, without leading zeros.
pub open spec fn decimal(n: nat) -> Seq<char>
    decreases n,
{
    if n < 10 {
        seq![digit_char(n as int)]
    } else {
        decimal(n / 10).push(digit_char((n % 10) as int))
    }
}

/// Writes a number in decimal.
pub(crate) fn write_decimal(n: u64) -> (text: String)
    ensures
        text@ == decimal(n as nat),
    decreases n,
{
    let mut text = if n < 10 {
        String::new()
    } else {
        write_decimal(n / 10)
    };
    push_digit(&mut text, (n % 10) as u8);
    assert(n < 10 ==> text@ =~= decimal(n as nat));
    text
}

/// Joins two texts.
pub(crate) fn join(left: &str, right: &str) -> (text: String)
    ensures
        text@ == left@ + right@,
{
    let mut text = left.to_owned();
    text.append(right);
    text
}

/// Tells whether a text is the given one.
pub(crate) fn text_is(text: &String, other: &str) -> (same: bool)
    ensures
        same == (text@ == other@),
{
    let other = other.to_owned();
    *text == other
}

/// What some strings hold.
pub open spec fn texts_of(strings: Seq<String>) -> Seq<Seq<char>> {
    Seq::new(strings.len(), |i: int| strings[i]@)
}

/// Lines with a line break between each two of them.
pub open spec fn joined_lines(lines: Seq<Seq<char>>) -> Seq<char>
    decreases lines.len(),
{
    if lines.len() == 0 {
        Seq::empty()
    } else if lines.len() == 1 {
        lines[0]
    } else {
        joined_lines(lines.drop_last()) + "\n"@ + lines.last()
    }
}

/// Joins lines with a line break between each two of them.
pub(crate) fn join_lines(lines: &Vec<String>) -> (text: String)
    ensures
        text@ == joined_lines(texts_of(lines@)),
{
    let ghost texts = texts_of(lines@);
    let mut text = String::new();
    let mut i: usize = 0;
    while i < lines.len()
        invariant
            i <= lines@.len(),
            texts == texts_of(lines@),
            text@ == joined_lines(texts.take(i as int)),
        decreases lines@.len() - i,
    {
        assert(texts.take(i + 1).drop_last() =~= texts.take(i as int));
        assert(texts.take(i + 1).last() == lines@[i as int]@);
        if i > 0 {
            text.append("\n");
        }
        text.append(lines[i].as_str());
        assert(i == 0 ==> text@ =~= lines@[0]@);
        i = i + 1;
    }
    assert(texts.take(lines@.len() as int) =~= texts);
    text
}

/// The characters of the digits: those of decimal numbers, then the first letters.
pub proof fn law_digit_chars(d: int)
    requires
        0 <= d < 16,
    ensures
        d < 10 ==> digit_char(d) as int == '0' as int + d,
        d >= 10 ==> digit_char(d) as int == 'a' as int + (d - 10),
{
    reveal_strlit("0123456789abcdef");
}

/// A character counts for a digit exactly when it is that digit's character, in
/// lower or in upper case.
pub proof fn law_digit_values(c: char, d: int)
    requires
        0 <= d < 16,
    ensures
        digit_value(c) == Some(d) <==> c == digit_char(d) || (d >= 10 && c as int == 'A' as int + (d
            - 10)),
        digit_value(c) matches Some(v) ==> 0 <= v < 16,
{
    law_digit_chars(d);
}

/// The number that a row of decimal digits stands for.
pub open spec fn decimal_value(text: Seq<char>) -> int
    decreases text.len(),
{
    if text.len() == 0 {
        0
    } else {
        decimal_value(text.drop_last()) * 10 + (text.last() as int - '0' as int)
    }
}

/// A number is written with decimal digits, without a zero in front, and stands for
/// itself.
pub proof fn law_decimal_stands_for_number(n: nat)
    ensures
        decimal_value(decimal(n)) == n,
        decimal(n).len() > 0,
        forall|i: int| 0 <= i < decimal(n).len() ==> '0' <= #[trigger] decimal(n)[i] <= '9',
        decimal(n)[0] == '0' ==> n == 0 && decimal(n).len() == 1,
    decreases n,
{
    law_digit_chars((n % 10) as int);
    reveal_with_fuel(decimal_value, 2);
    if n < 10 {
        law_digit_chars(n as int);
        assert(decimal(n).drop_last() =~= Seq::empty());
    } else {
        law_decimal_stands_for_number(n / 10);
        assert(decimal(n).drop_last() =~= decimal(n / 10));
        assert(decimal(n)[0] == decimal(n / 10)[0]);
        assert forall|i: int| 0 <= i < decimal(n).len() implies '0' <= #[trigger] decimal(n)[i]
            <= '9' by {
            if i < decimal(n).len() - 1 {
                assert(decimal(n)[i] == decimal(n / 10)[i]);
            }
        }
    }
}

/// No lines give no text, one line is the text, and the texts of two groups of
/// lines are joined by one line break.
pub proof fn law_lines_are_joined(line: Seq<char>, first: Seq<Seq<char>>, rest: Seq<Seq<char>>)
    ensures
        joined_lines(Seq::empty()).len() == 0,
        joined_lines(seq![line]) == line,
        first.len() > 0 && rest.len() > 0 ==> joined_lines(first + rest) == joined_lines(first)
            + seq!['\n'] + joined_lines(rest),
    decreases rest.len(),
{
    reveal_strlit("\n");
    assert("\n"@ =~= seq!['\n']);
    if first.len() > 0 && rest.len() > 0 {
        let all = first + rest;
        assert(all.last() == rest.last());
        if rest.len() == 1 {
            assert(all.drop_last() =~= first);
        } else {
            assert(all.drop_last() =~= first + rest.drop_last());
            law_lines_are_joined(line, first, rest.drop_last());
        }
        assert(joined_lines(all) =~= joined_lines(first) + seq!['\n'] + joined_lines(rest));
    }
}

/// Strings are seen one by one, each as its text.
pub proof fn law_texts_of_strings(strings: Seq<String>)
    ensures
        texts_of(strings).len() == strings.len(),
        forall|i: int| 0 <= i < strings.len() ==> #[trigger] texts_of(strings)[i] == strings[i]@,
{
}

} // verus!
