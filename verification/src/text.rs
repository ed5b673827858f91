//! Text that the boundary writes into its diagnostics: decimal numbers, the
//! context lines of decode failures, and what it means for one text to occur
//! in another.

use vstd::prelude::*;

verus! {

/// The character that writes the digit `d` in base ten.
pub open spec fn digit_char(d: nat) -> char
    recommends
        d < 10,
{
    if d == 0 {
        '0'
    } else if d == 1 {
        '1'
    } else if d == 2 {
        '2'
    } else if d == 3 {
        '3'
    } else if d == 4 {
        '4'
    } else if d == 5 {
        '5'
    } else if d == 6 {
        '6'
    } else if d == 7 {
        '7'
    } else if d == 8 {
        '8'
    } else {
        '9'
    }
}

/// The decimal numeral of `n`: most significant digit first, no leading zero
/// except for zero itself.
pub open spec fn decimal(n: nat) -> Seq<char>
    decreases n,
{
    if n < 10 {
        seq![digit_char(n)]
    } else {
        decimal(n / 10).push(digit_char(n % 10))
    }
}

/// The digit that `c` writes, and zero for any other character.
pub open spec fn digit_value(c: char) -> nat {
    if c == '1' {
        1
    } else if c == '2' {
        2
    } else if c == '3' {
        3
    } else if c == '4' {
        4
    } else if c == '5' {
        5
    } else if c == '6' {
        6
    } else if c == '7' {
        7
    } else if c == '8' {
        8
    } else if c == '9' {
        9
    } else {
        0
    }
}

/// The number that a row of decimal digits denotes.
pub open spec fn numeral_value(digits: Seq<char>) -> nat
    decreases digits.len(),
{
    if digits.len() == 0 {
        0
    } else {
        10 * numeral_value(digits.drop_last()) + digit_value(digits.last())
    }
}

/// `part` stands in `text` at offset `at`.
pub open spec fn occurs_at(text: Seq<char>, part: Seq<char>, at: int) -> bool {
    &&& 0 <= at
    &&& at + part.len() <= text.len()
    &&& text.subrange(at, at + part.len()) == part
}

/// `part` stands somewhere in `text`, letter for letter.
pub open spec fn occurs_in(text: Seq<char>, part: Seq<char>) -> bool {
    exists|at: int| occurs_at(text, part, at)
}

/// `first` stands in `text`, and `second` stands in it after the end of that
/// occurrence.
pub open spec fn occurs_before(text: Seq<char>, first: Seq<char>, second: Seq<char>) -> bool {
    exists|i: int, j: int|
        occurs_at(text, first, i) && occurs_at(text, second, j) && i + first.len() <= j
}

/// The context line of a failed decode: the shape that was asked for, then
/// the payload as it came.
pub open spec fn decode_context(shape: Seq<char>, payload: Seq<char>) -> Seq<char> {
    "failed to deserialize as "@ + shape + "\nJSON: "@ + payload
}

/// The context line of a failed decode of the argument at `index`.
pub open spec fn argument_context(index: nat, shape: Seq<char>, payload: Seq<char>) -> Seq<char> {
    "Failed to deserialize argument at `"@ + decimal(index) + "` as "@ + shape + "\nJSON: "@
        + payload
}

fn digit_text(d: usize) -> (r: &'static str)
    requires
        d < 10,
    ensures
        r@ == seq![digit_char(d as nat)],
{
    proof {
        reveal_strlit("0");
        reveal_strlit("1");
        reveal_strlit("2");
        reveal_strlit("3");
        reveal_strlit("4");
        reveal_strlit("5");
        reveal_strlit("6");
        reveal_strlit("7");
        reveal_strlit("8");
        reveal_strlit("9");
    }
    let r = if d == 0 {
        "0"
    } else if d == 1 {
        "1"
    } else if d == 2 {
        "2"
    } else if d == 3 {
        "3"
    } else if d == 4 {
        "4"
    } else if d == 5 {
        "5"
    } else if d == 6 {
        "6"
    } else if d == 7 {
        "7"
    } else if d == 8 {
        "8"
    } else {
        "9"
    };
    assert(r@ =~= seq![digit_char(d as nat)]);
    r
}

/// Writes `n` in base ten.
pub fn decimal_string(n: usize) -> (r: String)
    ensures
        r@ == decimal(n as nat),
    decreases n,
{
    if n < 10 {
        digit_text(n).to_owned()
    } else {
        let mut r = decimal_string(n / 10);
        r.append(digit_text(n % 10));
        assert(r@ =~= decimal(n as nat));
        r
    }
}

/// Writes the context line of a failed decode.
pub fn decode_context_string(shape: &str, payload: &str) -> (r: String)
    ensures
        r@ == decode_context(shape@, payload@),
{
    let mut r = "failed to deserialize as ".to_owned();
    r.append(shape);
    r.append("\nJSON: ");
    r.append(payload);
    r
}

/// Writes the context line of a failed decode of the argument at `index`.
pub fn argument_context_string(index: usize, shape: &str, payload: &str) -> (r: String)
    ensures
        r@ == argument_context(index as nat, shape@, payload@),
{
    let digits = decimal_string(index);
    let mut r = "Failed to deserialize argument at `".to_owned();
    r.append(digits.as_str());
    r.append("` as ");
    r.append(shape);
    r.append("\nJSON: ");
    r.append(payload);
    r
}

} // verus!
