//! Plain text: decimal numbers, and the pieces that a separator cuts a text into.

use vstd::prelude::*;

verus! {

/// The character that a decimal digit is written as.
pub open spec fn digit_char(digit: nat) -> char {
    if digit == 0 {
        '0'
    } else if digit == 1 {
        '1'
    } else if digit == 2 {
        '2'
    } else if digit == 3 {
        '3'
    } else if digit == 4 {
        '4'
    } else if digit == 5 {
        '5'
    } else if digit == 6 {
        '6'
    } else if digit == 7 {
        '7'
    } else if digit == 8 {
        '8'
    } else {
        '9'
    }
}

/// The decimal digits of a number, without leading zeros.
pub open spec fn decimal_text(number: nat) -> Seq<char>
    decreases number,
{
    if number < 10 {
        seq![digit_char(number)]
    } else {
        decimal_text(number / 10).push(digit_char(number % 10))
    }
}

/// The digit that a character stands for, where it is a decimal digit.
pub open spec fn digit_value(c: char) -> Option<nat> {
    if c == '0' {
        Some(0)
    } else if c == '1' {
        Some(1)
    } else if c == '2' {
        Some(2)
    } else if c == '3' {
        Some(3)
    } else if c == '4' {
        Some(4)
    } else if c == '5' {
        Some(5)
    } else if c == '6' {
        Some(6)
    } else if c == '7' {
        Some(7)
    } else if c == '8' {
        Some(8)
    } else if c == '9' {
        Some(9)
    } else {
        None
    }
}

/// The number that a text of decimal digits stands for. The empty text stands for none, nor
/// does a text that holds anything but digits.
pub open spec fn decimal_value(text: Seq<char>) -> Option<nat>
    decreases text.len(),
{
    if text.len() == 0 {
        None
    } else {
        match digit_value(text.last()) {
            None => None,
            Some(digit) => if text.len() == 1 {
                Some(digit)
            } else {
                match decimal_value(text.drop_last()) {
                    Some(front) => Some(front * 10 + digit),
                    None => None,
                }
            },
        }
    }
}

/// The pieces that a separator cuts a text into, in order. There is always at least one piece,
/// and a piece is empty where two separators meet or the text begins or ends with one.
pub open spec fn split(text: Seq<char>, mark: char) -> Seq<Seq<char>>
    decreases text.len(),
{
    if text.len() == 0 {
        seq![Seq::empty()]
    } else {
        let before = split(text.drop_last(), mark);
        if text.last() == mark {
            before.push(Seq::empty())
        } else {
            before.drop_last().push(before.last().push(text.last()))
        }
    }
}

/// A text that holds no separator is one piece.
pub proof fn lemma_split_plain(text: Seq<char>, mark: char)
    requires
        !text.contains(mark),
    ensures
        split(text, mark) == seq![text],
    decreases text.len(),
{
    if text.len() > 0 {
        let front = text.drop_last();
        assert forall|i: int| 0 <= i < front.len() implies front[i] != mark by {
            assert(text[i] == front[i]);
            assert(text.contains(text[i]));
        }
        assert(!front.contains(mark));
        lemma_split_plain(front, mark);
        assert(text.last() != mark) by {
            assert(text.contains(text.last()));
        }
        assert(front.push(text.last()) =~= text);
        assert(seq![front].drop_last().push(text) =~= seq![text]);
    } else {
        assert(text =~= Seq::<char>::empty());
    }
}

/// A separator followed by a text that holds none adds that text as one more piece.
pub proof fn lemma_split_append(head: Seq<char>, tail: Seq<char>, mark: char)
    requires
        !tail.contains(mark),
    ensures
        split(head + seq![mark] + tail, mark) == split(head, mark).push(tail),
    decreases tail.len(),
{
    let whole = head + seq![mark] + tail;
    if tail.len() == 0 {
        assert(whole.drop_last() =~= head);
        assert(tail =~= Seq::<char>::empty());
    } else {
        let front = tail.drop_last();
        assert forall|i: int| 0 <= i < front.len() implies front[i] != mark by {
            assert(tail[i] == front[i]);
            assert(tail.contains(tail[i]));
        }
        assert(!front.contains(mark));
        lemma_split_append(head, front, mark);
        assert(whole.drop_last() =~= head + seq![mark] + front);
        assert(whole.last() == tail.last());
        assert(tail.last() != mark) by {
            assert(tail.contains(tail.last()));
        }
        let before = split(head, mark).push(front);
        assert(before.drop_last() =~= split(head, mark));
        assert(front.push(tail.last()) =~= tail);
    }
}

/// A number is written with at least one character, and every one of them is a digit.
pub proof fn lemma_decimal_digits(number: nat)
    ensures
        decimal_text(number).len() > 0,
        forall|i: int|
            0 <= i < decimal_text(number).len() ==> digit_value(
                #[trigger] decimal_text(number)[i],
            ) is Some,
    decreases number,
{
    if number >= 10 {
        lemma_decimal_digits(number / 10);
    }
}

/// A number is read back from its decimal digits.
pub proof fn lemma_decimal_value(number: nat)
    ensures
        decimal_value(decimal_text(number)) == Some(number),
    decreases number,
{
    if number >= 10 {
        lemma_decimal_value(number / 10);
        lemma_decimal_digits(number / 10);
        let text = decimal_text(number);
        assert(text.drop_last() =~= decimal_text(number / 10));
        assert(digit_value(digit_char(number % 10)) == Some(number % 10));
    }
}

/// Where a text stands for a number, each of its beginnings stands for one that is no
/// larger.
pub proof fn lemma_decimal_prefix(text: Seq<char>, length: int)
    requires
        decimal_value(text) is Some,
        0 < length <= text.len(),
    ensures
        decimal_value(text.take(length)) matches Some(front) && front <= decimal_value(
            text,
        ).unwrap(),
    decreases text.len(),
{
    if length == text.len() {
        assert(text.take(length) =~= text);
    } else {
        assert(text.take(length) =~= text.drop_last().take(length));
        lemma_decimal_prefix(text.drop_last(), length);
    }
}

/// The text `"0"` to `"9"` of a digit.
fn digit_text(digit: u64) -> (r: &'static str)
    requires
        digit < 10,
    ensures
        r@ == seq![digit_char(digit as nat)],
{
    proof {
        reveal_strlit("0");
        reveal_strlit("1");
        reveal_strlit("2");
        reveal_strlit("3");
        reveal_strlit("4");
        reveal_strlit("5");
        reveal_strlit("6");
        reveal_strlit("7");
        reveal_strlit("8");
        reveal_strlit("9");
    }
    if digit == 0 {
        "0"
    } else if digit == 1 {
        "1"
    } else if digit == 2 {
        "2"
    } else if digit == 3 {
        "3"
    } else if digit == 4 {
        "4"
    } else if digit == 5 {
        "5"
    } else if digit == 6 {
        "6"
    } else if digit == 7 {
        "7"
    } else if digit == 8 {
        "8"
    } else {
        "9"
    }
}

/// Writes a number in decimal digits.
pub fn decimal(number: u64) -> (r: String)
    ensures
        r@ == decimal_text(number as nat),
    decreases number,
{
    if number < 10 {
        digit_text(number).to_owned()
    } else {
        let mut text = decimal(number / 10);
        text.append(digit_text(number % 10));
        text
    }
}

/// The digit that a character stands for.
fn digit_of(c: char) -> (r: Option<u64>)
    ensures
        match r {
            Some(digit) => digit < 10 && digit_value(c) == Some(digit as nat),
            None => digit_value(c) is None,
        },
{
    if c == '0' {
        Some(0)
    } else if c == '1' {
        Some(1)
    } else if c == '2' {
        Some(2)
    } else if c == '3' {
        Some(3)
    } else if c == '4' {
        Some(4)
    } else if c == '5' {
        Some(5)
    } else if c == '6' {
        Some(6)
    } else if c == '7' {
        Some(7)
    } else if c == '8' {
        Some(8)
    } else if c == '9' {
        Some(9)
    } else {
        None
    }
}

/// Reads a number from its decimal digits. Nothing is read from the empty text, from a text
/// that holds anything but digits, or from one that stands for a number beyond `u64`.
pub fn parse_decimal(text: &str) -> (r: Option<u64>)
    ensures
        r == match decimal_value(text@) {
            Some(number) if number <= u64::MAX => Some(number as u64),
            _ => None,
        },
{
    let chars = chars_of(text);
    let n = chars.len();
    if n == 0 {
        return None;
    }
    let mut value: u64 = 0;
    let mut i: usize = 0;
    while i < n
        invariant
            0 < n == chars@.len(),
            chars@ == text@,
            i <= n,
            i == 0 ==> value == 0,
            i > 0 ==> decimal_value(text@.take(i as int)) == Some(value as nat),
        decreases n - i,
    {
        let ghost longer = text@.take(i + 1);
        proof {
            assert(longer.drop_last() =~= text@.take(i as int));
            assert(longer.last() == text@[i as int]);
            if decimal_value(text@) is Some {
                lemma_decimal_prefix(text@, i + 1);
            }
        }
        let digit = match digit_of(chars[i]) {
            Some(digit) => digit,
            None => {
                return None;
            },
        };
        if value > (u64::MAX - digit) / 10 {
            return None;
        }
        value = value * 10 + digit;
        i += 1;
    }
    assert(text@.take(n as int) =~= text@);
    Some(value)
}

/// The characters of a text, one by one.
pub fn chars_of(text: &str) -> (r: Vec<char>)
    ensures
        r@ == text@,
{
    let mut chars: Vec<char> = Vec::new();
    for c in it: text.chars()
        invariant
            it.seq() == text@,
            chars@ == text@.take(it.index()),
    {
        chars.push(c);
    }
    chars
}

} // verus!
