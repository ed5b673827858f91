//! Decoding of JSON text into typed values, with failures that say which
//! shape was asked for and what the payload was.

use crate::failure::{failure_chain, layer};
use crate::text::{decode_context, decode_context_string};
use serde::de::DeserializeOwned;
use vstd::prelude::*;

verus! {

/// `serde_json::Error`, carried as an opaque value from the parser to the
/// failure that is raised from it.
#[verifier::external_type_specification]
#[verifier::external_body]
pub struct ExParseError(serde_json::Error);

/// The message of a parser's error: what the `Display` of a
/// `serde_json::Error` writes.
pub uninterp spec fn parse_error_text(cause: serde_json::Error) -> Seq<char>;

/// `serde_json::from_str`. Whether it succeeds, and with what, is decided by
/// the shape's own deserializer: nothing is claimed of the result.
#[verifier::external_body]
pub(crate) fn parse_str<T: DeserializeOwned>(text: &str) -> (parsed: Result<T, serde_json::Error>) {
    serde_json::from_str(text)
}

/// `serde_json::from_slice`. Whether it succeeds, and with what, is decided
/// by the shape's own deserializer: nothing is claimed of the result.
#[verifier::external_body]
pub(crate) fn parse_slice<T: DeserializeOwned>(bytes: &[u8]) -> (parsed: Result<
    T,
    serde_json::Error,
>) {
    serde_json::from_slice(bytes)
}

/// `anyhow::Error::new` on a parser's error, which becomes the root cause of
/// the failure. Its chain begins with the error itself and goes on with what
/// the error names as its sources.
#[verifier::external_body]
pub(crate) fn raise(cause: serde_json::Error) -> (failure: anyhow::Error)
    ensures
        failure_chain(failure).len() >= 1,
        failure_chain(failure)[0] == parse_error_text(cause),
{
    anyhow::Error::new(cause)
}

/// `parsed` is an answer that the parser can give when it reads `text` as a
/// `T`.
pub closed spec fn parsed_from_text<T: DeserializeOwned>(
    text: &str,
    parsed: Result<T, serde_json::Error>,
) -> bool {
    call_ensures(parse_str::<T>, (text,), parsed)
}

/// How the outcome `r` of a decode of `text` as `shape` follows from the
/// parser's answer `parsed`: a parsed value is handed on as it is, and an
/// error becomes the root cause of a failure whose outermost layer names the
/// shape and quotes the text.
pub open spec fn decode_follows<T>(
    parsed: Result<T, serde_json::Error>,
    shape: Seq<char>,
    text: Seq<char>,
    r: Result<T, anyhow::Error>,
) -> bool {
    match parsed {
        Ok(value) => r == Ok::<T, anyhow::Error>(value),
        Err(cause) => r is Err && failure_chain(r->Err_0).len() >= 2 && failure_chain(r->Err_0)[0]
            == decode_context(shape, text) && failure_chain(r->Err_0)[1] == parse_error_text(
            cause,
        ),
    }
}

/// What a decode of `text` as `shape` returns once the parser has answered
/// with `parsed`: the parsed value, or a failure whose outermost layer names
/// the shape and quotes the text, above the parser's own error.
pub fn decode_outcome<T>(parsed: Result<T, serde_json::Error>, shape: &str, text: &str) -> (r:
    Result<T, anyhow::Error>)
    ensures
        decode_follows(parsed, shape@, text@, r),
{
    match parsed {
        Ok(value) => Ok(value),
        Err(cause) => Err(layer(raise(cause), decode_context_string(shape, text))),
    }
}

/// Decodes `text` as a `T`, which diagnostics call `shape`: hands `text` to
/// the parser and returns what follows from its answer. A success is the
/// value that the parser made of `text`; a failure names the shape and quotes
/// `text` in its outermost layer, above the parser's own error.
pub fn deserialize_json<T: DeserializeOwned>(text: &str, shape: &str) -> (r: Result<
    T,
    anyhow::Error,
>)
    ensures
        exists|parsed: Result<T, serde_json::Error>| #[trigger]
            parsed_from_text::<T>(text, parsed) && decode_follows(parsed, shape@, text@, r),
        r matches Err(failure) ==> failure_chain(failure).len() >= 2 && failure_chain(failure)[0]
            == decode_context(shape@, text@),
{
    let parsed = parse_str::<T>(text);
    proof {
        assert(parsed_from_text::<T>(text, parsed));
    }
    decode_outcome(parsed, shape, text)
}

} // verus!
