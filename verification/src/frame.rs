//! Locating length-delimited messages in the bytes received so far.
//!
//! Each message on the wire is preceded by its length as a variable-length
//! integer. The bytes of a session arrive in chunks of any size, so a buffer
//! may hold a whole message, a part of one, or bytes that cannot begin one.

use crate::error::StreamError;
use vstd::prelude::*;
use vstd::string::StringExecFns;

verus! {

/// What `prost::encoding::decode_varint` reads at the front of `bytes`: the
/// number it decodes and how many bytes it leaves unread behind that number,
/// or nothing where it reports an error.
pub uninterp spec fn varint_of(bytes: Seq<u8>) -> Option<(u64, usize)>;

/// Calls `prost::encoding::decode_varint` on the front of `buffer`. Trusted:
/// the number decoded and the count of bytes that the call left unread are
/// what that function yields for these bytes, under the name `varint_of`; an
/// error of the call is `None`. A number that was decoded took at least one
/// byte and at most ten. Nothing else is claimed.
#[verifier::external_body]
fn read_varint(buffer: &[u8]) -> (r: Option<(u64, usize)>)
    ensures
        r == varint_of(buffer@),
        r matches Some((_, left)) ==> left < buffer@.len() && buffer@.len() - left <= 10,
{
    let mut rest: &[u8] = buffer;
    match prost::encoding::decode_varint(&mut rest) {
        Ok(number) => Some((number, rest.len())),
        Err(_) => None,
    }
}

/// What the front of a buffer holds.
#[derive(Clone, Copy, Debug, PartialEq, Eq, Structural)]
pub enum Frame {
    /// More bytes are needed before anything can be said.
    Incomplete,
    /// A whole message lies at `start..end`; the next one begins at `end`.
    Ready { start: usize, end: usize },
    /// The bytes cannot begin a message.
    Corrupt,
}

/// The frame at the front of a buffer of `total` bytes, given what was read
/// of its delimiter: the length of the message and the bytes left behind the
/// delimiter.
///
/// Without a delimiter, fewer than ten bytes may still grow into one, and ten
/// or more never will. With one, the message is ready once all its bytes are
/// there. A delimiter said to leave more bytes behind it than the buffer
/// holds is corrupt.
pub open spec fn frame_for(total: usize, delimiter: Option<(u64, usize)>) -> Frame {
    match delimiter {
        None => if total < 10 {
            Frame::Incomplete
        } else {
            Frame::Corrupt
        },
        Some((length, left)) => if left > total {
            Frame::Corrupt
        } else if length <= left {
            Frame::Ready { start: (total - left) as usize, end: (total - left + length) as usize }
        } else {
            Frame::Incomplete
        },
    }
}

/// Decides on the frame at the front of a buffer of `total` bytes from what
/// was read of its delimiter. A ready frame lies within the buffer.
pub fn locate(total: usize, delimiter: Option<(u64, usize)>) -> (frame: Frame)
    ensures
        frame == frame_for(total, delimiter),
        frame matches Frame::Ready { start, end } ==> start <= end <= total,
{
    match delimiter {
        None => {
            if total < 10 {
                Frame::Incomplete
            } else {
                Frame::Corrupt
            }
        },
        Some((length, left)) => {
            if left > total {
                Frame::Corrupt
            } else if length <= left as u64 {
                let start: usize = total - left;
                Frame::Ready { start, end: start + length as usize }
            } else {
                Frame::Incomplete
            }
        },
    }
}

/// The frame at the front of `buffer`.
pub fn next_frame(buffer: &[u8]) -> (frame: Frame)
    ensures
        frame == frame_for(buffer@.len() as usize, varint_of(buffer@)),
        frame matches Frame::Ready { start, end } ==> 1 <= start <= 10 && start <= end
            <= buffer@.len(),
        frame is Corrupt ==> buffer@.len() >= 10,
{
    let delimiter = read_varint(buffer);
    locate(buffer.len(), delimiter)
}

/// What reading on in the body of a session reported.
#[derive(Clone, Debug, PartialEq, Eq)]
pub enum BodyEvent {
    /// More bytes arrived and were put behind those already buffered.
    Grew,
    /// The body ended.
    Ended,
    /// Reading failed, with the transport's detail.
    Failed(String),
}

/// What the reader of a session's body does next.
#[derive(Clone, Debug, PartialEq, Eq)]
pub enum ReadStep {
    /// Decode the message at `start..end` and drop the buffer up to `end`.
    Decode { start: usize, end: usize },
    /// Read more of the body.
    Await,
    /// Look at the front of the buffer again.
    Inspect,
    /// The session ended cleanly.
    Finish,
    /// The session ended with this error.
    Fail(StreamError),
}

/// The step that follows a look at the front of the buffer: a ready message
/// is decoded, an incomplete one waits for more bytes, and a corrupt front is
/// a decode failure.
pub fn on_frame(frame: Frame) -> (step: ReadStep)
    ensures
        match frame {
            Frame::Ready { start, end } => step == (ReadStep::Decode { start, end }),
            Frame::Incomplete => step == ReadStep::Await,
            Frame::Corrupt => step matches ReadStep::Fail(StreamError::Decode(detail))
                && detail@ == "invalid length delimiter"@,
        },
{
    match frame {
        Frame::Ready { start, end } => ReadStep::Decode { start, end },
        Frame::Incomplete => ReadStep::Await,
        Frame::Corrupt => ReadStep::Fail(
            StreamError::Decode(String::from_str("invalid length delimiter")),
        ),
    }
}

/// The step that follows an attempt to read more, with `buffered` bytes in
/// the buffer. A body that ends on a message boundary ends the session
/// cleanly; one that ends inside a message, or fails, is a connection failure.
pub fn on_body_event(buffered: usize, event: BodyEvent) -> (step: ReadStep)
    ensures
        match event {
            BodyEvent::Grew => step == ReadStep::Inspect,
            BodyEvent::Ended => if buffered == 0 {
                step == ReadStep::Finish
            } else {
                step matches ReadStep::Fail(StreamError::Connection(detail)) && detail@
                    == "stream ended inside a message"@
            },
            BodyEvent::Failed(detail) => step == ReadStep::Fail(StreamError::Connection(detail)),
        },
{
    match event {
        BodyEvent::Grew => ReadStep::Inspect,
        BodyEvent::Ended => {
            if buffered == 0 {
                ReadStep::Finish
            } else {
                ReadStep::Fail(
                    StreamError::Connection(String::from_str("stream ended inside a message")),
                )
            }
        },
        BodyEvent::Failed(detail) => ReadStep::Fail(StreamError::Connection(detail)),
    }
}

} // verus!
