use vstd::prelude::*;
use vstd::string::*;
use vstd::utf8::*;

verus! {

/// One application message unit carried by the framed channel.
#[derive(Debug, Clone, PartialEq, Eq)]
pub enum Frame {
    /// A payload of raw bytes: a command on the way to the device, command
    /// output on the way back.
    Binary(Vec<u8>),
    /// The explicit signal of a graceful shutdown, with the bytes of the
    /// reason that it gives, if any.
    Close(Vec<u8>),
    /// Any other kind of message (text, ping, pong), with the bytes it holds.
    Other(Vec<u8>),
}

impl Frame {
    /// The bytes that the frame carries: for a close frame, its reason.
    pub open spec fn payload(self) -> Seq<u8> {
        match self {
            Frame::Binary(bytes) => bytes@,
            Frame::Close(reason) => reason@,
            Frame::Other(bytes) => bytes@,
        }
    }

    /// Wraps a piece of text, a command or its output, as a binary frame.
    pub fn from_text(text: &str) -> (frame: Frame)
        ensures
            frame matches Frame::Binary(bytes) && bytes@ == encode_utf8(text@),
    {
        Frame::Binary(text.as_bytes_vec())
    }

    /// A copy of the payload of the frame.
    pub fn data(&self) -> (data: Vec<u8>)
        ensures
            data@ == self.payload(),
    {
        match self {
            Frame::Binary(bytes) => bytes.clone(),
            Frame::Close(reason) => reason.clone(),
            Frame::Other(bytes) => bytes.clone(),
        }
    }

    /// Takes the payload out of the frame.
    pub fn into_data(self) -> (data: Vec<u8>)
        ensures
            data@ == self.payload(),
    {
        match self {
            Frame::Binary(bytes) => bytes,
            Frame::Close(reason) => reason,
            Frame::Other(bytes) => bytes,
        }
    }

    /// Whether the frame is the graceful-shutdown signal.
    pub fn is_close(&self) -> (res: bool)
        ensures
            res == (*self is Close),
    {
        match self {
            Frame::Close(_) => true,
            _ => false,
        }
    }
}

/// Calls `String::from_utf8`, and `FromUtf8Error::into_bytes` on its error.
/// The bytes become a string exactly when they are valid UTF-8, and the string
/// then holds the characters they encode; otherwise the bytes come back as
/// they were given.
#[verifier::external_body]
pub(crate) fn string_from_utf8(bytes: Vec<u8>) -> (res: Result<String, Vec<u8>>)
    ensures
        res is Ok <==> valid_utf8(bytes@),
        res matches Ok(text) ==> text@ == decode_utf8(bytes@),
        res matches Err(rejected) ==> rejected@ == bytes@,
{
    String::from_utf8(bytes).map_err(|err| err.into_bytes())
}

} // verus!
