//! The entry point: from the host's bytes to the outcome of the call.
use vstd::prelude::*;
use vstd::utf8::*;
use crate::decode::decode_text;
use crate::greeting::{
    greeting, greeting_bytes, greeting_prefix, greeting_suffix, greeting_text,
    lemma_greeting_bytes,
};
use crate::outcome::InvocationResult;

verus! {

/// What one call comes to: how it ended, and the greeting line to emit.
///
/// Only the status code of `result` goes back to the host. `output` is the
/// effect of the call, handed to whoever owns the output channel; it is
/// there exactly when the call succeeded.
#[derive(Debug, PartialEq, Eq)]
pub struct Invocation {
    /// How the call ended.
    pub result: InvocationResult,
    /// The greeting line, without a line break; `None` where nothing is to
    /// be emitted.
    pub output: Option<String>,
}

/// An [`Invocation`] as a mathematical value: the greeting as a sequence of
/// characters.
pub struct InvocationView {
    /// How the call ended.
    pub result: InvocationResult,
    /// The characters of the greeting line, if there is one.
    pub output: Option<Seq<char>>,
}

impl View for Invocation {
    type V = InvocationView;

    open spec fn view(&self) -> InvocationView {
        InvocationView {
            result: self.result,
            output: match self.output {
                Some(line) => Some(line@),
                None => None,
            },
        }
    }
}

impl Invocation {
    /// An invocation is well formed when it has a greeting exactly if it
    /// succeeded.
    pub open spec fn wf(&self) -> bool {
        self.result == InvocationResult::Success <==> self.output is Some
    }

    /// The integer that goes back to the host.
    pub fn status(&self) -> (code: i32)
        ensures
            code == self.result.code(),
    {
        self.result.status_code()
    }
}

/// What a call on `bytes` comes to.
///
/// Valid UTF-8 is greeted by its decoded text; anything else is turned down
/// with no greeting at all.
pub open spec fn invocation_of(bytes: Seq<u8>) -> InvocationView {
    if valid_utf8(bytes) {
        InvocationView {
            result: InvocationResult::Success,
            output: Some(greeting_text(decode_utf8(bytes))),
        }
    } else {
        InvocationView { result: InvocationResult::InvalidEncoding, output: None }
    }
}

/// Handles one call on the host's bytes.
///
/// The bytes are read once and never kept. The answer is a function of the
/// bytes alone: nothing is remembered from one call to the next, so a
/// repeated call gets the same outcome and a greeting of its own.
pub fn greet(name: &[u8]) -> (call: Invocation)
    ensures
        call@ == invocation_of(name@),
        call.wf(),
{
    match decode_text(name) {
        Some(text) => Invocation {
            result: InvocationResult::Success,
            output: Some(greeting(text)),
        },
        None => Invocation { result: InvocationResult::InvalidEncoding, output: None },
    }
}

/// Every valid UTF-8 input succeeds, and its greeting holds exactly the text
/// it decodes to: nothing cut off, nothing added to the name. Byte for byte,
/// the greeting is the fixed frame around the very bytes the host sent.
pub proof fn lemma_valid_input_is_greeted(bytes: Seq<u8>)
    requires
        valid_utf8(bytes),
    ensures
        invocation_of(bytes).result == InvocationResult::Success,
        invocation_of(bytes).result.code() == 0,
        invocation_of(bytes).output matches Some(line) && {
            let name = decode_utf8(bytes);
            &&& line == greeting_text(name)
            &&& line.len() == name.len() + 8
            &&& line.subrange(7, 7 + name.len() as int) == name
            &&& encode_utf8(name) == bytes
            &&& encode_utf8(line) == greeting_bytes(bytes)
        },
{
    let name = decode_utf8(bytes);
    decode_utf8_encode_utf8(bytes);
    lemma_greeting_bytes(name);
}

/// Every input that is not valid UTF-8 is turned down with the failure
/// status and produces no greeting.
pub proof fn lemma_invalid_input_is_rejected(bytes: Seq<u8>)
    requires
        !valid_utf8(bytes),
    ensures
        invocation_of(bytes).result == InvocationResult::InvalidEncoding,
        invocation_of(bytes).result.code() == -1,
        invocation_of(bytes).result.code() != 0,
        invocation_of(bytes).output is None,
{
}

/// A call is a function of its bytes: two calls on equal input end alike,
/// and on valid input each of them has the whole greeting, whichever came
/// first.
pub proof fn lemma_repeated_call_agrees(first: Seq<u8>, second: Seq<u8>)
    requires
        first == second,
    ensures
        invocation_of(first) == invocation_of(second),
        invocation_of(first).result.code() == invocation_of(second).result.code(),
        valid_utf8(first) ==> invocation_of(first).output is Some && invocation_of(
            second,
        ).output is Some,
{
}

/// The empty input is valid: it decodes to the empty text and is greeted
/// with the bare frame.
pub proof fn lemma_empty_input_is_greeted()
    ensures
        valid_utf8(Seq::<u8>::empty()),
        decode_utf8(Seq::<u8>::empty()) == Seq::<char>::empty(),
        invocation_of(Seq::<u8>::empty()).result == InvocationResult::Success,
        invocation_of(Seq::<u8>::empty()).result.code() == 0,
        invocation_of(Seq::<u8>::empty()).output == Some(greeting_prefix() + greeting_suffix()),
{
}

} // verus!
