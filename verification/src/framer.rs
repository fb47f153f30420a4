//! Frame boundaries: the decision a framer takes on the bytes received so far.
use vstd::prelude::*;
use crate::buffer::get_u32_le;
use crate::buffer::le32;
use crate::error::Error;

verus! {

/// What a framer decides about the bytes accumulated so far.
#[derive(Debug, Clone, Copy, PartialEq, Eq, Structural)]
pub enum Frame {
    /// The stream is malformed beyond recovery.
    Fatal,
    /// More bytes are needed.
    Continue,
    /// The leading bytes, as many as given, form one frame.
    Success(u32),
}

/// A strategy that knows the wire format. Its decision is a function of the
/// bytes alone.
pub trait Framer {
    /// The decision on `buf`. A framer says here what it decides; one
    /// that does not leaves its decisions unknown.
    closed spec fn decide(&self, buf: Seq<u8>) -> Frame {
        arbitrary()
    }

    fn parse(&self, buf: &[u8]) -> (frame: Frame)
        ensures
            frame == self.decide(buf@),
    ;
}

/// The decision of the length-prefixed format: a little-endian 32-bit total
/// length, header included, followed by the payload.
pub open spec fn length_prefixed(buf: Seq<u8>) -> Frame {
    if buf.len() < 4 {
        Frame::Continue
    } else if buf.len() < le32(buf) {
        Frame::Continue
    } else {
        Frame::Success(le32(buf) as u32)
    }
}

/// The framer of the length-prefixed format.
#[derive(Debug, Clone, Copy)]
pub struct DefaultFramer;

impl Framer for DefaultFramer {
    open spec fn decide(&self, buf: Seq<u8>) -> Frame {
        length_prefixed(buf)
    }

    fn parse(&self, buf: &[u8]) -> (frame: Frame) {
        let len: usize = buf.len();
        if len < 4 {
            return Frame::Continue;
        }
        let size: u32 = get_u32_le(buf);
        if len < size as usize {
            return Frame::Continue;
        }
        Frame::Success(size)
    }
}

impl Default for DefaultFramer {
    fn default() -> (framer: DefaultFramer)
        ensures
            framer == DefaultFramer,
    {
        DefaultFramer
    }
}

/// The text of the error that a fatal framing decision is reported with.
pub open spec fn fatal_text() -> Seq<char> {
    "a fatal error occurred while parsing the frame"@
}

impl Frame {
    /// Asks `framer` for its decision on `buf` and folds it into a length:
    /// the frame's length on success, zero when more bytes are needed, and
    /// an error on a fatal decision.
    pub fn check<F: Framer>(buf: &[u8], framer: &F) -> (r: Result<u32, Error>)
        ensures
            match framer.decide(buf@) {
                Frame::Success(n) => r == Ok::<u32, Error>(n),
                Frame::Continue => r == Ok::<u32, Error>(0),
                Frame::Fatal => r is Err && r.unwrap_err() is Module
                    && r.unwrap_err().text() == fatal_text(),
            },
    {
        match framer.parse(buf) {
            Frame::Success(len) => Ok(len),
            Frame::Continue => Ok(0),
            Frame::Fatal => Err(Error::module("a fatal error occurred while parsing the frame")),
        }
    }
}

} // verus!
