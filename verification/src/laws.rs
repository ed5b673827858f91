//! What holds of every failure that this crate hands to the host: the
//! message lets a reader find the shape, the payload and the argument again,
//! and the context of a failure stands before its cause.

use crate::failure::{
    cause_indent, causes_heading, first_cause_mark, flattens, opens_with, reports, single_line,
};
use crate::text::{
    argument_context, decimal, decode_context, digit_char, digit_value, numeral_value, occurs_at,
    occurs_before, occurs_in,
};
use vstd::prelude::*;

verus! {

/// A text that opens a message holds every part that it is built from:
/// `part` stands in `message` where it stands in `head + part + tail`.
pub proof fn part_of_opening(
    message: Seq<char>,
    head: Seq<char>,
    part: Seq<char>,
    tail: Seq<char>,
)
    requires
        (head + part + tail).is_prefix_of(message),
    ensures
        occurs_at(message, part, head.len() as int),
        occurs_in(message, part),
{
    let opening = head + part + tail;
    let at = head.len() as int;
    assert(message.subrange(0, opening.len() as int) =~= opening);
    assert(message.subrange(at, at + part.len()) =~= part) by {
        assert forall|k: int| 0 <= k < part.len() implies message.subrange(at, at + part.len())[k]
            == part[k] by {
            assert(message.subrange(0, opening.len() as int)[at + k] == opening[at + k]);
        }
    }
    assert(occurs_at(message, part, at));
}

/// A message that opens with the context line of a failed decode holds the
/// name of the shape and, after it, the payload, both letter for letter. So
/// does the context line itself.
pub proof fn decode_failure_quotes_shape_and_payload(
    message: Seq<char>,
    shape: Seq<char>,
    payload: Seq<char>,
)
    requires
        decode_context(shape, payload).is_prefix_of(message),
    ensures
        occurs_in(message, shape),
        occurs_in(message, payload),
        occurs_before(message, shape, payload),
        occurs_before(decode_context(shape, payload), shape, payload),
{
    let opening = "failed to deserialize as "@;
    let middle = "\nJSON: "@;
    let context = decode_context(shape, payload);
    assert(context =~= opening + shape + (middle + payload));
    assert(context =~= (opening + shape + middle) + payload + Seq::<char>::empty());
    part_of_opening(message, opening, shape, middle + payload);
    part_of_opening(message, opening + shape + middle, payload, Seq::<char>::empty());
    assert(context.is_prefix_of(context));
    part_of_opening(context, opening, shape, middle + payload);
    part_of_opening(context, opening + shape + middle, payload, Seq::<char>::empty());
}

/// The flattened message of a failure whose outermost layer is the context
/// line of a failed decode holds the name of the shape and the payload,
/// letter for letter: the failure can be reproduced from the message alone.
pub proof fn translated_decode_failure_quotes_shape_and_payload(
    chain: Seq<Seq<char>>,
    message: Seq<char>,
    shape: Seq<char>,
    payload: Seq<char>,
)
    requires
        flattens(chain, message),
        chain[0] == decode_context(shape, payload),
    ensures
        occurs_in(message, shape),
        occurs_in(message, payload),
        occurs_before(message, shape, payload),
{
    decode_failure_quotes_shape_and_payload(message, shape, payload);
}

/// A message that opens with the context line of a failed argument holds the
/// decimal numeral of the argument's index, then the name of the shape, then
/// the payload, each letter for letter.
pub proof fn argument_failure_names_index(
    message: Seq<char>,
    index: nat,
    shape: Seq<char>,
    payload: Seq<char>,
)
    requires
        opens_with(message, argument_context(index, shape, payload)),
    ensures
        occurs_in(message, decimal(index)),
        occurs_in(message, shape),
        occurs_in(message, payload),
        occurs_before(message, decimal(index), shape),
        occurs_before(message, shape, payload),
{
    let opening = "Failed to deserialize argument at `"@;
    let as_shape = "` as "@;
    let middle = "\nJSON: "@;
    let digits = decimal(index);
    let context = argument_context(index, shape, payload);
    let rest = causes_heading();
    assert(context + rest =~= opening + digits + (as_shape + shape + middle + payload + rest));
    assert(context + rest =~= (opening + digits + as_shape) + shape + (middle + payload + rest));
    assert(context + rest =~= (opening + digits + as_shape + shape + middle) + payload + rest);
    part_of_opening(message, opening, digits, as_shape + shape + middle + payload + rest);
    part_of_opening(message, opening + digits + as_shape, shape, middle + payload + rest);
    part_of_opening(message, opening + digits + as_shape + shape + middle, payload, rest);
}

/// In the flattened message of a failure that is one layer of context above
/// a root cause of one non-empty line, the context stands first and the root
/// cause after it, both letter for letter.
pub proof fn context_precedes_cause(chain: Seq<Seq<char>>, message: Seq<char>)
    requires
        flattens(chain, message),
        chain.len() == 2,
        chain[1].len() > 0,
        single_line(chain[1]),
    ensures
        occurs_before(message, chain[0], chain[1]),
{
    let between = causes_heading() + cause_indent();
    let opening = chain[0] + causes_heading() + cause_indent() + chain[1];
    let none = Seq::<char>::empty();
    assert(opening =~= none + chain[0] + (between + chain[1]));
    assert(opening =~= (chain[0] + between) + chain[1] + none);
    part_of_opening(message, none, chain[0], between + chain[1]);
    part_of_opening(message, chain[0] + between, chain[1], none);
}

/// Every flattened message holds the outermost layer of its failure at its
/// very start: no failure crosses the boundary without its context.
pub proof fn message_opens_with_outermost_layer(chain: Seq<Seq<char>>, message: Seq<char>)
    requires
        flattens(chain, message),
    ensures
        occurs_at(message, chain[0], 0),
{
    let none = Seq::<char>::empty();
    assert(chain[0] =~= none + chain[0] + none);
    part_of_opening(message, none, chain[0], none);
}

/// The flattened message of a failure with causes reports the first of
/// them under the outermost layer.
pub proof fn flattened_failure_reports_first_cause(chain: Seq<Seq<char>>, message: Seq<char>)
    requires
        flattens(chain, message),
        chain.len() >= 2,
    ensures
        reports(message, chain[0], chain[1]),
{
}

/// In a message that reports a cause of one non-empty line under a context,
/// the context stands first and the cause after it, both letter for letter.
pub proof fn cause_follows_context(message: Seq<char>, context: Seq<char>, cause: Seq<char>)
    requires
        reports(message, context, cause),
        cause.len() > 0,
        single_line(cause),
    ensures
        occurs_at(message, context, 0),
        occurs_before(message, context, cause),
{
    let none = Seq::<char>::empty();
    let heading = causes_heading();
    assert(context + heading =~= none + context + heading);
    part_of_opening(message, none, context, heading);
    if (context + heading + cause_indent() + cause).is_prefix_of(message) {
        let between = heading + cause_indent();
        assert(context + heading + cause_indent() + cause =~= (context + between) + cause + none);
        part_of_opening(message, context + between, cause, none);
    } else {
        let between = heading + first_cause_mark();
        assert(context + heading + first_cause_mark() + cause =~= (context + between) + cause
            + none);
        part_of_opening(message, context + between, cause, none);
    }
}

/// The decimal numeral of a number denotes that number.
pub proof fn decimal_denotes(n: nat)
    ensures
        numeral_value(decimal(n)) == n,
        decimal(n).len() >= 1,
    decreases n,
{
    assert(digit_value(digit_char(n % 10)) == n % 10);
    if n < 10 {
        let digits = decimal(n);
        assert(digits.drop_last() =~= Seq::<char>::empty());
        assert(numeral_value(digits.drop_last()) == 0);
        assert(digits.last() == digit_char(n));
    } else {
        decimal_denotes(n / 10);
        let digits = decimal(n);
        assert(digits.drop_last() =~= decimal(n / 10));
        assert(digits.last() == digit_char(n % 10));
    }
}

/// Two numbers with the same decimal numeral are the same number: the
/// numeral in a message names one argument and no other.
pub proof fn decimal_names_one_number(a: nat, b: nat)
    requires
        decimal(a) == decimal(b),
    ensures
        a == b,
{
    decimal_denotes(a);
    decimal_denotes(b);
}

} // verus!
