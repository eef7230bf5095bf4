//! Payloads: the bytes sent by the client and returned by the server's
//! callback, taken from the host's values.
use vstd::prelude::*;
use vstd::utf8::encode_utf8;
use crate::error::{SocketError, Step};

verus! {

/// The largest datagram the client receives.
pub const DATAGRAM_BUFFER_LEN: usize = 65535;

/// The size of the one read a connection handler makes.
pub const REQUEST_BUFFER_LEN: usize = 4096;

/// The shapes of a host value that matter here; any other shape is kept
/// as the name of its type.
#[derive(Debug)]
pub enum PipelineValue {
    Text(String),
    Binary(Vec<u8>),
    Nothing,
    Other(String),
}

/// The bytes that a value carries, if it is a byte-representable value.
pub open spec fn value_bytes(v: PipelineValue) -> Option<Seq<u8>> {
    match v {
        PipelineValue::Text(s) => Some(encode_utf8(s@)),
        PipelineValue::Binary(b) => Some(b@),
        _ => None,
    }
}

/// The bytes a client sends for an input value, if it accepts the value.
pub open spec fn input_bytes(v: PipelineValue) -> Option<Seq<u8>> {
    match v {
        PipelineValue::Nothing => Some(Seq::<u8>::empty()),
        _ => value_bytes(v),
    }
}

/// The bytes of a string, in UTF-8.
fn text_bytes(s: &String) -> (r: Vec<u8>)
    ensures
        r@ == encode_utf8(s@),
{
    vstd::slice::slice_to_vec(s.as_str().as_bytes())
}

/// The payload a client sends for its input: the bytes of a string or a
/// binary value, nothing for an empty input; any other input is refused.
pub fn input_payload(input: PipelineValue) -> (r: Result<Vec<u8>, SocketError>)
    ensures
        input_bytes(input) is Some <==> r is Ok,
        r is Ok ==> r->Ok_0@ == input_bytes(input)->Some_0,
        input is Other ==> r is Err && r->Err_0.step == Step::UnsupportedInput
            && r->Err_0.cause@ == input->Other_0@,
{
    match input {
        PipelineValue::Text(s) => Ok(text_bytes(&s)),
        PipelineValue::Binary(b) => Ok(b),
        PipelineValue::Nothing => Ok(Vec::new()),
        PipelineValue::Other(shape) => Err(SocketError::new(Step::UnsupportedInput, shape)),
    }
}

/// The reply a server writes for its callback's result: the bytes of a
/// string or a binary value; any other result breaks the protocol.
pub fn reply_payload(reply: PipelineValue) -> (r: Result<Vec<u8>, SocketError>)
    ensures
        value_bytes(reply) is Some <==> r is Ok,
        r is Ok ==> r->Ok_0@ == value_bytes(reply)->Some_0,
        r is Err ==> r->Err_0.step == Step::ClosureOutput,
        reply is Other ==> r is Err && r->Err_0.cause@ == reply->Other_0@,
{
    match reply {
        PipelineValue::Text(s) => Ok(text_bytes(&s)),
        PipelineValue::Binary(b) => Ok(b),
        PipelineValue::Nothing => Err(SocketError::new(Step::ClosureOutput, String::from_str("nothing"))),
        PipelineValue::Other(shape) => Err(SocketError::new(Step::ClosureOutput, shape)),
    }
}

/// A zero-filled buffer of `len` bytes for one receive.
pub fn receive_buffer(len: usize) -> (r: Vec<u8>)
    ensures
        r@ == Seq::new(len as nat, |_i: int| 0u8),
{
    let r = vec![0u8; len];
    assert(r@ =~= Seq::new(len as nat, |_i: int| 0u8));
    r
}

/// The bytes a receive of `received` bytes left in `buffer`.
pub fn take_received(buffer: Vec<u8>, received: usize) -> (r: Vec<u8>)
    requires
        received <= buffer.len(),
    ensures
        r@ == buffer@.subrange(0, received as int),
{
    let mut out = buffer;
    out.truncate(received);
    out
}

} // verus!
