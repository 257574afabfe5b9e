//! Plain-value models of what crosses the module boundary: the opaque
//! argument payload, one invocation, and the opaque error status a handler
//! may answer with. The core carries these values; it never interprets them.

use vstd::prelude::*;

verus! {

/// An opaque payload of bytes. The core never looks inside: the bytes travel
/// through unchanged, and decoding them belongs entirely to the handler's
/// own domain layer.
#[derive(Clone, PartialEq, Eq, Debug)]
pub struct MessagePack {
    pub data: Vec<u8>,
}

impl MessagePack {
    pub fn new(data: Vec<u8>) -> (p: MessagePack)
        ensures
            p.data == data,
    {
        MessagePack { data }
    }
}

/// One request from the router: the name of the function to invoke and an
/// optional opaque argument payload.
#[derive(Clone, PartialEq, Eq, Debug)]
pub struct Invocation {
    pub function_name: String,
    pub args: Option<MessagePack>,
}

impl Invocation {
    pub fn new(function_name: String, args: Option<MessagePack>) -> (inv: Invocation)
        ensures
            inv.function_name == function_name,
            inv.args == args,
    {
        Invocation { function_name, args }
    }
}

/// An error code, mirroring the codes of the RPC wire protocol.
#[derive(Clone, Copy, PartialEq, Eq, Debug)]
pub enum Code {
    Cancelled,
    Unknown,
    InvalidArgument,
    DeadlineExceeded,
    NotFound,
    AlreadyExists,
    PermissionDenied,
    ResourceExhausted,
    FailedPrecondition,
    Aborted,
    OutOfRange,
    Unimplemented,
    Internal,
    Unavailable,
    DataLoss,
    Unauthenticated,
}

/// An opaque error status: a code and a message. The core neither interprets
/// nor retries these; they reach the caller exactly as the handler wrote
/// them.
#[derive(Clone, PartialEq, Eq, Debug)]
pub struct Status {
    pub code: Code,
    pub message: String,
}

impl Status {
    pub fn new(code: Code, message: String) -> (s: Status)
        ensures
            s.code == code,
            s.message == message,
    {
        Status { code, message }
    }
}

} // verus!
