//! Native failures, host failures, and the translation of the first into the
//! second.
//!
//! A native failure is an `anyhow::Error`: a root cause under the layers of
//! context that were attached to it. The contracts speak of it through its
//! chain of messages, outermost layer first.

use vstd::prelude::*;

verus! {

/// `anyhow::Error`, carried as an opaque value: nothing is known of it but
/// what the functions below say of its chain.
#[verifier::external_type_specification]
#[verifier::external_body]
pub struct ExNativeFailure(anyhow::Error);

/// The messages of a native failure, outermost layer first and root cause
/// last: what `anyhow::Error::chain` hands out, each entry as its `Display`
/// writes it.
pub uninterp spec fn failure_chain(failure: anyhow::Error) -> Seq<Seq<char>>;

/// The line that introduces the causes in a flattened message.
pub open spec fn causes_heading() -> Seq<char> {
    "\n\nCaused by:\n"@
}

/// The indentation of a cause that stands alone under the heading.
pub open spec fn cause_indent() -> Seq<char> {
    "    "@
}

/// The mark in front of the first cause where several stand under the
/// heading.
pub open spec fn first_cause_mark() -> Seq<char> {
    "    0: "@
}

/// `message` has no line break.
pub open spec fn single_line(message: Seq<char>) -> bool {
    !message.contains('\n')
}

/// What is known of the flattened `message` of a failure with the given
/// `chain`, whatever else follows in it (further causes, a stack trace where
/// the process records them):
/// it opens with the outermost layer; where there are causes, the heading
/// follows at once; and a first cause of one non-empty line follows the
/// heading letter for letter, behind its indentation where it is the only
/// cause and behind its mark where there are more.
pub open spec fn flattens(chain: Seq<Seq<char>>, message: Seq<char>) -> bool {
    &&& chain.len() >= 1
    &&& chain[0].is_prefix_of(message)
    &&& chain.len() >= 2 ==> (chain[0] + causes_heading()).is_prefix_of(message)
    &&& chain.len() == 2 && chain[1].len() > 0 && single_line(chain[1]) ==> (chain[0]
        + causes_heading() + cause_indent() + chain[1]).is_prefix_of(message)
    &&& chain.len() >= 3 && chain[1].len() > 0 && single_line(chain[1]) ==> (chain[0]
        + causes_heading() + first_cause_mark() + chain[1]).is_prefix_of(message)
}

/// `message` opens with `context` and goes on with the heading of the
/// causes.
pub open spec fn opens_with(message: Seq<char>, context: Seq<char>) -> bool {
    (context + causes_heading()).is_prefix_of(message)
}

/// `message` reports `cause` under `context`: it opens with the context and
/// the heading of the causes, and a cause of one non-empty line follows
/// letter for letter, behind its indentation or its mark.
pub open spec fn reports(message: Seq<char>, context: Seq<char>, cause: Seq<char>) -> bool {
    &&& opens_with(message, context)
    &&& cause.len() > 0 && single_line(cause) ==> {
        ||| (context + causes_heading() + cause_indent() + cause).is_prefix_of(message)
        ||| (context + causes_heading() + first_cause_mark() + cause).is_prefix_of(message)
    }
}

/// How the host classifies a failure.
#[derive(Clone, Copy, Debug, PartialEq, Eq, Structural)]
pub enum Status {
    InvalidArg,
    ObjectExpected,
    StringExpected,
    NameExpected,
    FunctionExpected,
    NumberExpected,
    BooleanExpected,
    ArrayExpected,
    GenericFailure,
    PendingException,
    Cancelled,
    EscapeCalledTwice,
    HandleScopeMismatch,
    CallbackScopeMismatch,
    QueueFull,
    Closing,
    BigintExpected,
    DateExpected,
    ArrayBufferExpected,
    DetachableArraybufferExpected,
    WouldDeadlock,
    Unknown,
}

/// The one form in which a failure crosses to the host: a classification and
/// a flat message.
#[derive(Clone, Debug)]
pub struct HostFailure {
    pub status: Status,
    pub reason: String,
}

impl View for HostFailure {
    type V = (Status, Seq<char>);

    open spec fn view(&self) -> (Status, Seq<char>) {
        (self.status, self.reason@)
    }
}

/// `anyhow::Error::context`: wraps `inner` in one more layer. The chain of
/// the result is the new layer's message followed by the chain of `inner`.
#[verifier::external_body]
pub(crate) fn layer(inner: anyhow::Error, context: String) -> (failure: anyhow::Error)
    ensures
        failure_chain(failure) == seq![context@] + failure_chain(inner),
{
    inner.context(context)
}

/// `format!("{:?}", ..)` of an `anyhow::Error`. The text opens with the
/// `Display` of the error itself; if it has a source, `"\n\nCaused by:"`
/// follows and then each cause on a line of its own, behind four spaces when
/// it is the only one and behind its number, right-aligned in five columns
/// and followed by `": "`, when there are more; a captured backtrace may come
/// last.
#[verifier::external_body]
fn debug_text(failure: &anyhow::Error) -> (text: String)
    ensures
        flattens(failure_chain(*failure), text@),
{
    format!("{:?}", failure)
}

/// Turns a native failure into the host failure that stands for it: always
/// classified as a generic failure, with the flattened chain as its message.
pub fn translate(failure: anyhow::Error) -> (host: HostFailure)
    ensures
        host.status == Status::GenericFailure,
        flattens(failure_chain(failure), host.reason@),
{
    let reason = debug_text(&failure);
    HostFailure { status: Status::GenericFailure, reason }
}

/// Results whose failure is still native, and which can be handed to the
/// host once it is translated.
pub trait MapErr<T>: Sized {
    /// The result as the native side sees it.
    spec fn native(self) -> Result<T, anyhow::Error>;

    /// Keeps a success as it is and translates a failure.
    fn convert_err(self) -> (r: Result<T, HostFailure>)
        ensures
            match self.native() {
                Ok(value) => r == Ok::<T, HostFailure>(value),
                Err(failure) => r is Err && r->Err_0.status == Status::GenericFailure && flattens(
                    failure_chain(failure),
                    r->Err_0.reason@,
                ),
            },
    ;
}

impl<T> MapErr<T> for Result<T, anyhow::Error> {
    open spec fn native(self) -> Result<T, anyhow::Error> {
        self
    }

    fn convert_err(self) -> (r: Result<T, HostFailure>) {
        match self {
            Ok(value) => Ok(value),
            Err(failure) => Err(translate(failure)),
        }
    }
}

} // verus!
