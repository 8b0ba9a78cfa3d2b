//! The lines that the client prints: decimal numbers, clock faces and flags.

use vstd::prelude::*;
use vstd::string::StringExecFns;

verus! {

/// The character that stands for a single decimal digit.
pub open spec fn digit(d: nat) -> char
    recommends
        d < 10,
{
    if d == 0 {
        '0'
    } else if d == 1 {
        '1'
    } else if d == 2 {
        '2'
    } else if d == 3 {
        '3'
    } else if d == 4 {
        '4'
    } else if d == 5 {
        '5'
    } else if d == 6 {
        '6'
    } else if d == 7 {
        '7'
    } else if d == 8 {
        '8'
    } else {
        '9'
    }
}

/// The decimal numeral of `n`: most significant digit first, no sign, no
/// leading zero except for zero itself.
pub open spec fn decimal(n: nat) -> Seq<char>
    decreases n,
{
    if n < 10 {
        seq![digit(n)]
    } else {
        decimal(n / 10).push(digit(n % 10))
    }
}

/// The decimal numeral of `n`, filled with a zero on the left to a width of
/// at least two.
pub open spec fn two_digits(n: nat) -> Seq<char> {
    if n < 10 {
        seq!['0', digit(n)]
    } else {
        decimal(n)
    }
}

/// The clock face of a span of whole seconds: minutes, a colon, seconds.
/// There is no hour field, so the minutes grow past two digits when the span
/// reaches a hundred minutes.
pub open spec fn clock(seconds: nat) -> Seq<char> {
    two_digits(seconds / 60) + seq![':'] + two_digits(seconds % 60)
}

/// The one-based numeral shown for a zero-based iteration counter.
pub open spec fn ordinal(counter: u8) -> Seq<char> {
    decimal((counter + 1) as nat)
}

/// The numeral shown for a flag: `1` when it is set, `0` when it is not.
pub open spec fn flag(set: bool) -> Seq<char> {
    if set {
        seq!['1']
    } else {
        seq!['0']
    }
}

/// The number that a single decimal digit stands for; zero for any other
/// character.
pub open spec fn digit_value(c: char) -> nat {
    if c == '1' {
        1
    } else if c == '2' {
        2
    } else if c == '3' {
        3
    } else if c == '4' {
        4
    } else if c == '5' {
        5
    } else if c == '6' {
        6
    } else if c == '7' {
        7
    } else if c == '8' {
        8
    } else if c == '9' {
        9
    } else {
        0
    }
}

/// The number that a string of decimal digits stands for.
pub open spec fn number(text: Seq<char>) -> nat
    decreases text.len(),
{
    if text.len() == 0 {
        0
    } else {
        number(text.drop_last()) * 10 + digit_value(text.last())
    }
}

/// The whole seconds that a clock face stands for: sixty times the number
/// before its colon, plus the number in its last two places.
pub open spec fn clock_seconds(face: Seq<char>) -> nat {
    number(face.subrange(0, face.len() - 3)) * 60 + number(
        face.subrange(face.len() - 2, face.len() as int),
    )
}

/// Tells whether two texts hold the same characters.
pub fn same_text(left: &str, right: &str) -> (same: bool)
    ensures
        same == (left@ == right@),
{
    let length = left.unicode_len();
    if right.unicode_len() != length {
        return false;
    }
    let mut at: usize = 0;
    while at < length
        invariant
            at <= length,
            length == left@.len(),
            length == right@.len(),
            forall|before: int| 0 <= before < at ==> left@[before] == right@[before],
        decreases length - at,
    {
        if left.get_char(at) != right.get_char(at) {
            return false;
        }
        at += 1;
    }
    assert(left@ =~= right@);
    true
}

fn digit_str(d: u64) -> (s: &'static str)
    requires
        d < 10,
    ensures
        s@ == seq![digit(d as nat)],
{
    proof {
        reveal_strlit("0");
        reveal_strlit("1");
        reveal_strlit("2");
        reveal_strlit("3");
        reveal_strlit("4");
        reveal_strlit("5");
        reveal_strlit("6");
        reveal_strlit("7");
        reveal_strlit("8");
        reveal_strlit("9");
    }
    let s = if d == 0 {
        "0"
    } else if d == 1 {
        "1"
    } else if d == 2 {
        "2"
    } else if d == 3 {
        "3"
    } else if d == 4 {
        "4"
    } else if d == 5 {
        "5"
    } else if d == 6 {
        "6"
    } else if d == 7 {
        "7"
    } else if d == 8 {
        "8"
    } else {
        "9"
    };
    assert(s@ =~= seq![digit(d as nat)]);
    s
}

/// Appends the decimal numeral of `n` to `text`.
pub fn push_decimal(text: &mut String, n: u64)
    ensures
        final(text)@ == old(text)@ + decimal(n as nat),
    decreases n,
{
    if n >= 10 {
        push_decimal(text, n / 10);
    }
    text.append(digit_str(n % 10));
}

/// Appends the numeral of `n`, at least two digits wide, to `text`.
pub fn push_two_digits(text: &mut String, n: u64)
    ensures
        final(text)@ == old(text)@ + two_digits(n as nat),
{
    if n < 10 {
        proof {
            reveal_strlit("0");
        }
        text.append("0");
    }
    push_decimal(text, n);
}

/// Returns the decimal numeral of `n`.
pub fn decimal_text(n: u64) -> (text: String)
    ensures
        text@ == decimal(n as nat),
{
    let mut text = String::new();
    push_decimal(&mut text, n);
    text
}

/// Returns the clock face of a span of `seconds` whole seconds.
pub fn clock_text(seconds: u64) -> (text: String)
    ensures
        text@ == clock(seconds as nat),
{
    let mut text = String::new();
    push_two_digits(&mut text, seconds / 60);
    proof {
        reveal_strlit(":");
    }
    text.append(":");
    push_two_digits(&mut text, seconds % 60);
    text
}

/// Returns the one-based numeral for a zero-based iteration counter. The
/// sum is taken in a wider type, so the last counter value shows as 256.
pub fn ordinal_text(counter: u8) -> (text: String)
    ensures
        text@ == ordinal(counter),
{
    let shown: u64 = counter as u64 + 1;
    decimal_text(shown)
}

/// Returns the numeral for a flag.
pub fn flag_text(set: bool) -> (text: String)
    ensures
        text@ == flag(set),
{
    proof {
        reveal_strlit("1");
        reveal_strlit("0");
    }
    if set {
        String::from_str("1")
    } else {
        String::from_str("0")
    }
}

/// A numeral reads back as the number it was written for, so no two
/// numbers share a numeral.
pub proof fn lemma_decimal_reads_back(n: nat)
    ensures
        number(decimal(n)) == n,
    decreases n,
{
    let numeral = decimal(n);
    if n < 10 {
        assert(numeral.drop_last() =~= Seq::<char>::empty());
        assert(number(numeral.drop_last()) == 0);
        assert(digit_value(numeral.last()) == n);
    } else {
        lemma_decimal_reads_back(n / 10);
        assert(numeral.drop_last() =~= decimal(n / 10));
        assert(digit_value(numeral.last()) == n % 10);
    }
}

/// A numeral has one digit below ten, two below a hundred, and more than
/// two from there on.
pub proof fn lemma_decimal_width(n: nat)
    ensures
        n < 10 <==> decimal(n).len() == 1,
        10 <= n < 100 <==> decimal(n).len() == 2,
        100 <= n <==> decimal(n).len() > 2,
    decreases n,
{
    if n >= 10 {
        lemma_decimal_width(n / 10);
    }
}

/// A numeral filled to two places reads back as its number too.
pub proof fn lemma_two_digits_read_back(n: nat)
    ensures
        number(two_digits(n)) == n,
        two_digits(n).len() >= 2,
        n < 100 <==> two_digits(n).len() == 2,
{
    lemma_decimal_width(n);
    if n < 10 {
        let filled = two_digits(n);
        let zero = seq!['0'];
        assert(filled.drop_last() =~= zero);
        assert(zero.drop_last() =~= Seq::<char>::empty());
        assert(number(zero.drop_last()) == 0);
        assert(number(zero) == 0);
        assert(digit_value(filled.last()) == n);
    } else {
        lemma_decimal_reads_back(n);
    }
}

/// A clock face holds the colon third from its end. It is five characters
/// wide for a span under a hundred minutes and wider from there on: the
/// minutes are never cut short.
pub proof fn lemma_clock_width(seconds: nat)
    ensures
        clock(seconds).len() >= 5,
        clock(seconds)[clock(seconds).len() - 3] == ':',
        seconds < 6000 <==> clock(seconds).len() == 5,
{
    lemma_two_digits_read_back(seconds / 60);
    lemma_two_digits_read_back(seconds % 60);
}

/// A clock face reads back as the span it was written for, so no two spans
/// share a face.
pub proof fn lemma_clock_reads_back(seconds: nat)
    ensures
        clock_seconds(clock(seconds)) == seconds,
{
    let minutes = two_digits(seconds / 60);
    let rest = two_digits(seconds % 60);
    let face = clock(seconds);
    lemma_two_digits_read_back(seconds / 60);
    lemma_two_digits_read_back(seconds % 60);
    assert(face.subrange(0, face.len() - 3) =~= minutes);
    assert(face.subrange(face.len() - 2, face.len() as int) =~= rest);
}

/// The numeral shown for an iteration counter stands for the counter plus
/// one, from 1 up to 256: the sum does not wrap.
pub proof fn lemma_ordinal_counts_from_one(counter: u8)
    ensures
        number(ordinal(counter)) == counter + 1,
        1 <= number(ordinal(counter)) <= 256,
{
    lemma_decimal_reads_back((counter + 1) as nat);
}

} // verus!
