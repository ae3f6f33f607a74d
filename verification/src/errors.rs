//! Error taxonomy of the protocol stack.
//!
//! Transport faults are carried as plain text produced at the I/O boundary;
//! the kinds a caller branches on (broken pipe, handshake mismatch, parse
//! failure) are distinct variants.

use vstd::prelude::*;
use vstd::string::*;

verus! {

/// Device-level operation error.
#[derive(Debug)]
pub struct ErrorSm {
    pub msg: String,
}

/// The human-readable text of an [`ErrorSm`].
pub open spec fn error_sm_message(msg: Seq<char>) -> Seq<char> {
    "Operation not performed because : "@ + msg
}

impl ErrorSm {
    /// The error rendered as one line of text.
    pub fn message(&self) -> (text: String)
        ensures
            text@ == error_sm_message(self.msg@),
    {
        let mut text = String::from_str("Operation not performed because : ");
        text.append(self.msg.as_str());
        text
    }
}

/// A transport write failed.
#[derive(Debug)]
pub enum SendError {
    Io(String),
}

/// A transport read failed, or what it returned could not be decoded.
#[derive(Debug)]
pub enum RecvError {
    /// The peer closed the connection: a read returned zero bytes.
    BrokenPipe,
    Io(String),
    /// A frame parse yielded zero frames.
    BadEncoding,
    Other(String),
}

/// Establishing a validated session failed.
#[derive(Debug)]
pub enum ConnectError {
    Io(String),
    /// The greeting exchange did not produce the expected payload.
    BadHandshake(String),
}

/// Binding the listening endpoint failed.
#[derive(Debug)]
pub enum BindError {
    Io(String),
}

/// A request/response cycle failed.
#[derive(Debug)]
pub enum RequestError {
    Send(SendError),
    Recv(RecvError),
}

pub type SendResult = Result<(), SendError>;

pub type RecvResult = Result<String, RecvError>;

pub type ConnectResult<T> = Result<T, ConnectError>;

pub type RequestResult = Result<String, RequestError>;

/// The text of a [`SendError`].
pub open spec fn send_error_message(e: SendError) -> Seq<char> {
    match e {
        SendError::Io(m) => m@,
    }
}

/// The text of a [`RecvError`].
pub open spec fn recv_error_message(e: RecvError) -> Seq<char> {
    match e {
        RecvError::BrokenPipe => "broken pipe"@,
        RecvError::Io(m) => m@,
        RecvError::BadEncoding => "bad encoding"@,
        RecvError::Other(m) => m@,
    }
}

/// The text of a [`RequestError`].
pub open spec fn request_error_message(e: RequestError) -> Seq<char> {
    match e {
        RequestError::Send(s) => send_error_message(s),
        RequestError::Recv(r) => recv_error_message(r),
    }
}

impl SendError {
    /// The error rendered as one line of text.
    pub fn message(&self) -> (text: String)
        ensures
            text@ == send_error_message(*self),
    {
        match self {
            SendError::Io(m) => m.clone(),
        }
    }
}

impl RecvError {
    /// The error rendered as one line of text.
    pub fn message(&self) -> (text: String)
        ensures
            text@ == recv_error_message(*self),
    {
        match self {
            RecvError::BrokenPipe => String::from_str("broken pipe"),
            RecvError::Io(m) => m.clone(),
            RecvError::BadEncoding => String::from_str("bad encoding"),
            RecvError::Other(m) => m.clone(),
        }
    }
}

impl RequestError {
    /// The error rendered as one line of text.
    pub fn message(&self) -> (text: String)
        ensures
            text@ == request_error_message(*self),
    {
        match self {
            RequestError::Send(s) => s.message(),
            RequestError::Recv(r) => r.message(),
        }
    }
}

} // verus!
