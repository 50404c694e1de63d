//! Text: what the standard library's string operations used here do, and
//! numbers written in decimal.

use vstd::prelude::*;

verus! {

/// `String::push` appends the character to the end of the string.
pub assume_specification[ String::push ](text: &mut String, ch: char)
    ensures
        final(text)@ == old(text)@.push(ch),
;

/// `String::pop` takes the last character off the string and returns it. Of
/// an empty string it returns `None` and leaves it empty.
pub assume_specification[ String::pop ](text: &mut String) -> (last: Option<char>)
    ensures
        old(text)@.len() == 0 ==> last is None && final(text)@ == old(text)@,
        old(text)@.len() > 0 ==> last == Some(old(text)@.last()) && final(text)@ == old(
            text,
        )@.drop_last(),
;

/// The character for a number below ten.
pub open spec fn digit(d: nat) -> char {
    if d == 0 {
        '0'
    } else if d == 1 {
        '1'
    } else if d == 2 {
        '2'
    } else if d == 3 {
        '3'
    } else if d == 4 {
        '4'
    } else if d == 5 {
        '5'
    } else if d == 6 {
        '6'
    } else if d == 7 {
        '7'
    } else if d == 8 {
        '8'
    } else {
        '9'
    }
}

/// A number in decimal digits, without leading zeros.
pub open spec fn decimal(n: nat) -> Seq<char>
    decreases n,
{
    if n < 10 {
        seq![digit(n)]
    } else {
        decimal(n / 10).push(digit(n % 10))
    }
}

fn digit_char(d: u64) -> (c: char)
    requires
        d < 10,
    ensures
        c == digit(d as nat),
{
    if d == 0 {
        '0'
    } else if d == 1 {
        '1'
    } else if d == 2 {
        '2'
    } else if d == 3 {
        '3'
    } else if d == 4 {
        '4'
    } else if d == 5 {
        '5'
    } else if d == 6 {
        '6'
    } else if d == 7 {
        '7'
    } else if d == 8 {
        '8'
    } else {
        '9'
    }
}

/// Writes `n` in decimal at the end of `text`.
pub fn push_decimal(text: &mut String, n: u64)
    ensures
        final(text)@ == old(text)@ + decimal(n as nat),
    decreases n,
{
    if n >= 10 {
        push_decimal(text, n / 10);
    }
    text.push(digit_char(n % 10));
}

/// `n` in decimal.
pub fn to_decimal(n: u64) -> (text: String)
    ensures
        text@ == decimal(n as nat),
{
    let mut text = String::new();
    push_decimal(&mut text, n);
    text
}

/// One of the ten digits.
pub open spec fn is_digit(c: char) -> bool {
    c == '0' || c == '1' || c == '2' || c == '3' || c == '4' || c == '5' || c == '6' || c == '7'
        || c == '8' || c == '9'
}

/// A decimal has at least one character, and all of them are digits.
pub proof fn lemma_decimal_is_digits(n: nat)
    ensures
        decimal(n).len() >= 1,
        forall|i: int| 0 <= i < decimal(n).len() ==> is_digit(#[trigger] decimal(n)[i]),
    decreases n,
{
    if n >= 10 {
        lemma_decimal_is_digits(n / 10);
    }
}

/// Different numbers have different decimals.
pub proof fn lemma_decimal_is_injective(a: nat, b: nat)
    requires
        decimal(a) == decimal(b),
    ensures
        a == b,
    decreases a,
{
    lemma_decimal_is_digits(a / 10);
    lemma_decimal_is_digits(b / 10);
    if a >= 10 {
        assert(decimal(a).len() == decimal(a / 10).len() + 1);
        if b < 10 {
            assert(decimal(b).len() == 1);
        }
        assert(decimal(a).drop_last() =~= decimal(a / 10));
        assert(decimal(b).drop_last() =~= decimal(b / 10));
        assert(decimal(a).last() == digit(a % 10));
        assert(decimal(b).last() == digit(b % 10));
        lemma_decimal_is_injective(a / 10, b / 10);
    } else {
        assert(decimal(a).len() == 1);
        if b >= 10 {
            assert(decimal(b).len() == decimal(b / 10).len() + 1);
        }
        assert(decimal(a)[0] == digit(a));
        assert(decimal(b)[0] == digit(b));
    }
}

/// A text that ends in a mark and a tail free of the mark is put together
/// in one way only: the mark is the last one in the text.
pub proof fn lemma_split_at_the_last_mark(
    head: Seq<char>,
    tail: Seq<char>,
    other_head: Seq<char>,
    other_tail: Seq<char>,
    mark: char,
)
    requires
        head + seq![mark] + tail == other_head + seq![mark] + other_tail,
        forall|i: int| 0 <= i < tail.len() ==> tail[i] != mark,
        forall|i: int| 0 <= i < other_tail.len() ==> other_tail[i] != mark,
    ensures
        head == other_head,
        tail == other_tail,
{
    let text = head + seq![mark] + tail;
    let other = other_head + seq![mark] + other_tail;
    assert(text.len() == head.len() + 1 + tail.len());
    assert(other.len() == other_head.len() + 1 + other_tail.len());
    assert(text[head.len() as int] == mark);
    assert(other[other_head.len() as int] == mark);
    if head.len() > other_head.len() {
        assert(other[head.len() as int] == other_tail[head.len() - other_head.len() - 1]);
    }
    if head.len() < other_head.len() {
        assert(text[other_head.len() as int] == tail[other_head.len() - head.len() - 1]);
    }
    assert(head.len() == other_head.len());
    assert forall|i: int| 0 <= i < head.len() implies head[i] == other_head[i] by {
        assert(text[i] == head[i]);
        assert(other[i] == other_head[i]);
    }
    assert forall|i: int| 0 <= i < tail.len() implies tail[i] == other_tail[i] by {
        assert(text[head.len() + 1 + i] == tail[i]);
        assert(other[head.len() + 1 + i] == other_tail[i]);
    }
    assert(head =~= other_head);
    assert(tail =~= other_tail);
}

} // verus!
