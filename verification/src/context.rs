//! The arguments of one call, and the two ways to read one of them: as text,
//! or as a typed value decoded from JSON.

use crate::failure::{layer, opens_with, reports, HostFailure, MapErr, Status};
use crate::json::{parse_error_text, parse_slice, raise};
use crate::text::{argument_context, argument_context_string};
use serde::de::DeserializeOwned;
use vstd::prelude::*;
use vstd::utf8::{decode_utf8, valid_utf8};

verus! {

/// The text that a lossy UTF-8 decode makes of `bytes`: what
/// `String::from_utf8_lossy` returns.
pub uninterp spec fn utf8_lossy(bytes: Seq<u8>) -> Seq<char>;

/// `text` is the lossy decoding of `bytes`: well-formed UTF-8 is decoded as
/// it stands, and the text of ill-formed bytes holds the replacement
/// character U+FFFD.
pub open spec fn lossy_decoding(bytes: Seq<u8>, text: Seq<char>) -> bool {
    &&& text == utf8_lossy(bytes)
    &&& valid_utf8(bytes) ==> text == decode_utf8(bytes)
    &&& !valid_utf8(bytes) ==> text.contains('\u{FFFD}')
}

/// `String::from_utf8_lossy`: never fails. Well-formed UTF-8 is decoded as it
/// stands; every ill-formed sequence is replaced by U+FFFD, so the text of
/// ill-formed bytes holds that character.
#[verifier::external_body]
pub(crate) fn lossy_text(bytes: &[u8]) -> (text: String)
    ensures
        text@ == utf8_lossy(bytes@),
        valid_utf8(bytes@) ==> text@ == decode_utf8(bytes@),
        !valid_utf8(bytes@) ==> text@.contains('\u{FFFD}'),
{
    String::from_utf8_lossy(bytes).into_owned()
}

/// What the context answers when asked for an argument that it does not
/// hold.
pub open spec fn missing_argument() -> (Status, Seq<char>) {
    (Status::GenericFailure, "Arguments index out of range"@)
}

/// The positional arguments of one call, each a raw byte buffer.
#[derive(Debug)]
pub struct CallContext {
    args: Vec<Vec<u8>>,
}

impl View for CallContext {
    type V = Seq<Seq<u8>>;

    closed spec fn view(&self) -> Seq<Seq<u8>> {
        self.args.deep_view()
    }
}

impl CallContext {
    /// The context of a call with the arguments `args`, in their order.
    pub fn new(args: Vec<Vec<u8>>) -> (context: CallContext)
        ensures
            context@ == args.deep_view(),
    {
        CallContext { args }
    }

    /// The number of arguments.
    pub fn len(&self) -> (n: usize)
        ensures
            n == self@.len(),
    {
        self.args.len()
    }

    /// The buffer of the argument at `index`, or the failure for a missing
    /// argument.
    pub fn get(&self, index: usize) -> (r: Result<&Vec<u8>, HostFailure>)
        ensures
            index < self@.len() ==> r is Ok && r->Ok_0@ == self@[index as int],
            index >= self@.len() ==> r is Err && r->Err_0@ == missing_argument(),
    {
        if index >= self.args.len() {
            Err(
                HostFailure {
                    status: Status::GenericFailure,
                    reason: "Arguments index out of range".to_owned(),
                },
            )
        } else {
            let buffer = &self.args[index];
            assert(buffer@ == self@[index as int]);
            Ok(buffer)
        }
    }
}

/// `parsed` is an answer that the parser can give when it reads `bytes` as a
/// `T`.
pub closed spec fn parsed_from_bytes<T: DeserializeOwned>(
    bytes: &[u8],
    parsed: Result<T, serde_json::Error>,
) -> bool {
    call_ensures(parse_slice::<T>, (bytes,), parsed)
}

/// How the outcome `r` of reading the argument at `index` as `shape` follows
/// from the parser's answer `parsed`: a parsed value is handed on as it is,
/// and an error becomes a generic failure whose message reports it under the
/// context line of that argument (its index, the shape, the payload as lossy
/// text).
pub open spec fn argument_follows<T>(
    parsed: Result<T, serde_json::Error>,
    index: nat,
    shape: Seq<char>,
    payload: Seq<u8>,
    r: Result<T, HostFailure>,
) -> bool {
    match parsed {
        Ok(value) => r == Ok::<T, HostFailure>(value),
        Err(cause) => r is Err && r->Err_0.status == Status::GenericFailure && reports(
            r->Err_0.reason@,
            argument_context(index, shape, utf8_lossy(payload)),
            parse_error_text(cause),
        ),
    }
}

/// What reading the argument at `index` as `shape` returns once the parser
/// has answered with `parsed`: the parsed value, or a host failure whose
/// message reports the parser's error under the context line of that
/// argument.
pub fn argument_outcome<T>(
    parsed: Result<T, serde_json::Error>,
    index: usize,
    shape: &str,
    payload: &[u8],
) -> (r: Result<T, HostFailure>)
    ensures
        argument_follows(parsed, index as nat, shape@, payload@, r),
{
    let layered: Result<T, anyhow::Error> = match parsed {
        Ok(value) => Ok(value),
        Err(cause) => {
            let text = lossy_text(payload);
            let context = argument_context_string(index, shape, text.as_str());
            Err(layer(raise(cause), context))
        },
    };
    layered.convert_err()
}

/// Decodes the payload of the argument at `index` from JSON as a `T`, which
/// diagnostics call `shape`: hands the payload to the parser and returns
/// what follows from its answer. A success is the value that the parser made
/// of the payload; a failure is a generic failure whose message opens with
/// the context line of that argument and reports the parser's error.
pub fn decode_argument<T: DeserializeOwned>(payload: &[u8], index: usize, shape: &str) -> (r:
    Result<T, HostFailure>)
    ensures
        exists|parsed: Result<T, serde_json::Error>| #[trigger]
            parsed_from_bytes::<T>(payload, parsed) && argument_follows(
                parsed,
                index as nat,
                shape@,
                payload@,
                r,
            ),
        r matches Err(failure) ==> failure.status == Status::GenericFailure && opens_with(
            failure.reason@,
            argument_context(index as nat, shape@, utf8_lossy(payload@)),
        ),
{
    let parsed = parse_slice::<T>(payload);
    proof {
        assert(parsed_from_bytes::<T>(payload, parsed));
    }
    argument_outcome(parsed, index, shape, payload)
}

/// Reading the arguments of a call.
pub trait CtxtExt {
    /// The buffers of the arguments, in their order.
    spec fn arguments(&self) -> Seq<Seq<u8>>;

    /// The argument at `index` as text, by a lossy UTF-8 decode. Fails only
    /// where there is no such argument, whatever the bytes are.
    fn get_buffer_as_string(&self, index: usize) -> (r: Result<String, HostFailure>)
        ensures
            index < self.arguments().len() ==> r is Ok && lossy_decoding(
                self.arguments()[index as int],
                r->Ok_0@,
            ),
            index >= self.arguments().len() ==> r is Err && r->Err_0@ == missing_argument(),
    ;

    /// The argument at `index` decoded from JSON as a `T`, which diagnostics
    /// call `shape`. A failure to decode says which argument it was, which
    /// shape was asked for and what the payload was.
    fn get_deserialized<T: DeserializeOwned>(&self, index: usize, shape: &str) -> (r: Result<
        T,
        HostFailure,
    >)
        ensures
            index >= self.arguments().len() ==> r is Err && r->Err_0@ == missing_argument(),
            index < self.arguments().len() ==> (r matches Err(failure) ==> failure.status
                == Status::GenericFailure && opens_with(
                failure.reason@,
                argument_context(index as nat, shape@, utf8_lossy(self.arguments()[index as int])),
            )),
    ;
}

impl CtxtExt for CallContext {
    open spec fn arguments(&self) -> Seq<Seq<u8>> {
        self@
    }

    fn get_buffer_as_string(&self, index: usize) -> (r: Result<String, HostFailure>) {
        match self.get(index) {
            Ok(buffer) => Ok(lossy_text(buffer.as_slice())),
            Err(failure) => Err(failure),
        }
    }

    fn get_deserialized<T: DeserializeOwned>(&self, index: usize, shape: &str) -> (r: Result<
        T,
        HostFailure,
    >) {
        match self.get(index) {
            Ok(buffer) => decode_argument(buffer.as_slice(), index, shape),
            Err(failure) => Err(failure),
        }
    }
}

} // verus!
