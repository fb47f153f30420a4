//! The receiving side of a connection: a buffer that grows with every read
//! and hands out the frames that the framer recognises.
use vstd::prelude::*;
use bytes::Bytes;
use bytes::BytesMut;
use crate::buffer::buffered;
use crate::buffer::contents;
use crate::buffer::extend_from_slice;
use crate::buffer::freeze;
use crate::buffer::frozen;
use crate::buffer::le32;
use crate::buffer::pending;
use crate::buffer::split_to;
use crate::buffer::with_capacity;
use crate::error::Error;
use crate::framer::fatal_text;
use crate::framer::DefaultFramer;
use crate::framer::Frame;
use crate::framer::Framer;

verus! {

/// The text of the error reported when the peer goes away in mid-frame.
pub open spec fn reset_text() -> Seq<char> {
    "connection reset by peer"@
}

/// What the reader owes for a decision taken on a buffer of `len` bytes.
#[derive(Debug, Clone, Copy, PartialEq, Eq, Structural)]
pub enum Split {
    /// Nothing yet: more bytes must be read.
    Wait,
    /// The leading bytes, as many as given, leave the buffer as one frame.
    Take(usize),
    /// The stream cannot be framed.
    Fail,
}

/// Turns a framer's decision into the reader's duty. A success that claims
/// more bytes than the buffer holds cannot be honoured and counts as fatal.
pub open spec fn split_of(decision: Frame, len: nat) -> Split {
    match decision {
        Frame::Continue => Split::Wait,
        Frame::Fatal => Split::Fail,
        Frame::Success(n) => if n <= len {
            Split::Take(n as usize)
        } else {
            Split::Fail
        },
    }
}

/// What one step of reading a frame found.
#[derive(Debug, PartialEq, Eq)]
pub enum Read {
    /// One whole frame.
    Frame(Bytes),
    /// No whole frame yet: the stream must be read again.
    More,
    /// The stream ended between two frames.
    Ended,
}

/// Accumulates received bytes and splits frames off the front.
pub struct ConnectionReader<F: Framer> {
    buf: BytesMut,
    framer: F,
}

impl<F: Framer> View for ConnectionReader<F> {
    type V = Seq<u8>;

    /// The bytes received and not yet handed out.
    closed spec fn view(&self) -> Seq<u8> {
        pending(self.buf)
    }
}

impl<F: Framer> ConnectionReader<F> {
    /// The framer that decides where frames end.
    pub closed spec fn framer(&self) -> F {
        self.framer
    }

    /// A reader with an empty buffer of the given initial capacity.
    pub fn new(size: usize, framer: F) -> (reader: Self)
        requires
            size <= isize::MAX,
        ensures
            reader@ == Seq::<u8>::empty(),
            reader.framer() == framer,
    {
        ConnectionReader { buf: with_capacity(size), framer }
    }

    /// The number of bytes received and not yet handed out.
    pub fn len(&self) -> (n: usize)
        ensures
            n == self@.len(),
    {
        buffered(&self.buf)
    }

    /// Takes the next frame out of the buffer if the framer sees one.
    ///
    /// On a frame the leading bytes leave the buffer and the rest stays; when
    /// more bytes are needed nothing changes; a fatal decision is reported as
    /// a module error and the buffer is left as it was.
    pub fn parse_frame(&mut self) -> (r: Result<Option<Bytes>, Error>)
        ensures
            final(self).framer() == old(self).framer(),
            match split_of(old(self).framer().decide(old(self)@), old(self)@.len()) {
                Split::Wait => r == Ok::<Option<Bytes>, Error>(None) && final(self)@ == old(self)@,
                Split::Take(n) => r is Ok && r.unwrap() is Some
                    && frozen(r.unwrap().unwrap()) == old(self)@.take(n as int)
                    && final(self)@ == old(self)@.skip(n as int),
                Split::Fail => r is Err && r.unwrap_err() is Module
                    && r.unwrap_err().text() == fatal_text() && final(self)@ == old(self)@,
            },
    {
        let decision = self.framer.parse(contents(&self.buf));
        match decision {
            Frame::Continue => Ok(None),
            Frame::Fatal => Err(Error::module("a fatal error occurred while parsing the frame")),
            Frame::Success(n) => {
                let len: usize = buffered(&self.buf);
                if n as usize <= len {
                    let head = split_to(&mut self.buf, n as usize);
                    Ok(Some(freeze(head)))
                } else {
                    Err(Error::module("a fatal error occurred while parsing the frame"))
                }
            },
        }
    }

    /// Takes in what one read of the stream returned. An empty `chunk`
    /// stands for a read of zero bytes.
    ///
    /// Returns `Ok(true)` when bytes arrived and parsing can go on,
    /// `Ok(false)` when the stream ended with nothing buffered, and a module
    /// error when it ended in the middle of a frame.
    pub fn receive(&mut self, chunk: &[u8]) -> (r: Result<bool, Error>)
        requires
            old(self)@.len() + chunk@.len() <= isize::MAX,
        ensures
            final(self).framer() == old(self).framer(),
            final(self)@ == old(self)@ + chunk@,
            chunk@.len() > 0 ==> r == Ok::<bool, Error>(true),
            chunk@.len() == 0 && old(self)@.len() == 0 ==> r == Ok::<bool, Error>(false),
            chunk@.len() == 0 && old(self)@.len() > 0 ==> r is Err && r.unwrap_err() is Module
                && r.unwrap_err().text() == reset_text(),
    {
        if chunk.len() == 0 {
            proof {
                assert(old(self)@ + chunk@ =~= old(self)@);
            }
            if buffered(&self.buf) == 0 {
                Ok(false)
            } else {
                Err(Error::module("connection reset by peer"))
            }
        } else {
            extend_from_slice(&mut self.buf, chunk);
            Ok(true)
        }
    }

    /// One step of reading a frame. The first step of a read is taken with
    /// no `chunk`; each later one with what the read that the step before
    /// asked for returned, an empty `chunk` standing for a read of zero
    /// bytes.
    ///
    /// The chunk, if any, is taken in as by [`ConnectionReader::receive`]:
    /// an empty one ends the read, cleanly on an empty buffer and with a
    /// module error on a buffer that holds part of a frame. Otherwise the
    /// step ends as [`ConnectionReader::parse_frame`] does on the bytes now
    /// held: with a frame, with a request for more bytes, or with a module
    /// error on a fatal framing decision.
    pub fn read_frame(&mut self, chunk: Option<&[u8]>) -> (r: Result<Read, Error>)
        requires
            chunk matches Some(c) ==> old(self)@.len() + c@.len() <= isize::MAX,
        ensures
            final(self).framer() == old(self).framer(),
            chunk matches Some(c) && c@.len() == 0 ==> {
                &&& final(self)@ == old(self)@
                &&& old(self)@.len() == 0 ==> r == Ok::<Read, Error>(Read::Ended)
                &&& old(self)@.len() > 0 ==> r is Err && r.unwrap_err() is Module
                    && r.unwrap_err().text() == reset_text()
            },
            !(chunk matches Some(c) && c@.len() == 0) ==> ({
                let held = match chunk {
                    Some(c) => old(self)@ + c@,
                    None => old(self)@,
                };
                match split_of(old(self).framer().decide(held), held.len()) {
                    Split::Wait => r == Ok::<Read, Error>(Read::More) && final(self)@ == held,
                    Split::Take(n) => r matches Ok(Read::Frame(frame)) && frozen(frame)
                        == held.take(n as int) && final(self)@ == held.skip(n as int),
                    Split::Fail => r is Err && r.unwrap_err() is Module && r.unwrap_err().text()
                        == fatal_text() && final(self)@ == held,
                }
            }),
    {
        match chunk {
            Some(c) => {
                match self.receive(c) {
                    Ok(true) => {},
                    Ok(false) => {
                        return Ok(Read::Ended);
                    },
                    Err(err) => {
                        return Err(err);
                    },
                }
            },
            None => {},
        }
        match self.parse_frame() {
            Ok(Some(frame)) => Ok(Read::Frame(frame)),
            Ok(None) => Ok(Read::More),
            Err(err) => Err(err),
        }
    }
}

/// The frames that a reader hands out of `stream` before it has to wait for
/// more bytes or fails, and the bytes that stay behind. An empty frame ends
/// the run, since the buffer would not shrink.
pub open spec fn frames_of<F: Framer>(framer: F, stream: Seq<u8>) -> (Seq<Seq<u8>>, Seq<u8>)
    decreases stream.len(),
{
    match split_of(framer.decide(stream), stream.len()) {
        Split::Take(n) => if 0 < n {
            let rest = frames_of(framer, stream.skip(n as int));
            (seq![stream.take(n as int)] + rest.0, rest.1)
        } else {
            (Seq::empty(), stream)
        },
        _ => (Seq::empty(), stream),
    }
}

/// A frame of the length-prefixed format: at least the four bytes of its
/// header, which spell its whole length.
pub open spec fn well_formed(frame: Seq<u8>) -> bool {
    &&& frame.len() >= 4
    &&& le32(frame) == frame.len()
}

/// The bytes of `frames` on the wire, one after the other.
pub open spec fn wire(frames: Seq<Seq<u8>>) -> Seq<u8>
    decreases frames.len(),
{
    if frames.len() == 0 {
        Seq::empty()
    } else {
        frames[0] + wire(frames.skip(1))
    }
}

/// A well-formed frame at the head of a stream is recognised whatever
/// follows it.
pub proof fn lemma_head_recognised(frame: Seq<u8>, tail: Seq<u8>)
    requires
        well_formed(frame),
    ensures
        split_of(DefaultFramer.decide(frame + tail), (frame + tail).len()) == Split::Take(
            frame.len() as usize,
        ),
        (frame + tail).take(frame.len() as int) == frame,
        (frame + tail).skip(frame.len() as int) == tail,
{
    let s = frame + tail;
    assert(s[0] == frame[0] && s[1] == frame[1] && s[2] == frame[2] && s[3] == frame[3]);
    assert(le32(s) == le32(frame));
    assert(le32(frame) <= 0xff + 0xff * 0x100 + 0xff * 0x1_0000 + 0xff * 0x100_0000);
    assert(s.take(frame.len() as int) =~= frame);
    assert(s.skip(frame.len() as int) =~= tail);
}

/// Framing undoes concatenation: the length-prefixed framer, applied to
/// well-formed frames written one after the other, yields those frames in
/// their order and leaves no byte behind.
pub proof fn lemma_roundtrip(frames: Seq<Seq<u8>>)
    requires
        forall|i: int| 0 <= i < frames.len() ==> well_formed(#[trigger] frames[i]),
    ensures
        frames_of(DefaultFramer, wire(frames)) == (frames, Seq::<u8>::empty()),
    decreases frames.len(),
{
    if frames.len() == 0 {
        assert(wire(frames) =~= Seq::<u8>::empty());
        assert(frames =~= Seq::<Seq<u8>>::empty());
    } else {
        let head = frames[0];
        let tail = frames.skip(1);
        assert forall|i: int| 0 <= i < tail.len() implies well_formed(#[trigger] tail[i]) by {
            assert(tail[i] == frames[i + 1]);
        }
        lemma_roundtrip(tail);
        lemma_head_recognised(head, wire(tail));
        assert(seq![head] + tail =~= frames);
    }
}

/// The frames that a reader hands out when `chunks` arrive one after the
/// other and it parses as far as it can after each, starting with `held`
/// in its buffer; and the bytes that stay behind at the end.
pub open spec fn fed<F: Framer>(framer: F, held: Seq<u8>, chunks: Seq<Seq<u8>>) -> (
    Seq<Seq<u8>>,
    Seq<u8>,
)
    decreases chunks.len(),
{
    if chunks.len() == 0 {
        frames_of(framer, held)
    } else {
        let first = frames_of(framer, held);
        let rest = fed(framer, first.1 + chunks[0], chunks.skip(1));
        (first.0 + rest.0, rest.1)
    }
}

/// Parsing a stream in two parts gives what parsing it whole gives: the
/// frames of the first part, then those of what it left behind followed by
/// the second part.
pub proof fn lemma_append(stream: Seq<u8>, more: Seq<u8>)
    ensures
        frames_of(DefaultFramer, stream + more) == ({
            let first = frames_of(DefaultFramer, stream);
            let rest = frames_of(DefaultFramer, first.1 + more);
            (first.0 + rest.0, rest.1)
        }),
    decreases stream.len(),
{
    let whole = stream + more;
    let first = frames_of(DefaultFramer, stream);
    match split_of(DefaultFramer.decide(stream), stream.len()) {
        Split::Take(n) => {
            if 0 < n {
                assert(whole[0] == stream[0] && whole[1] == stream[1] && whole[2] == stream[2]
                    && whole[3] == stream[3]);
                assert(le32(whole) == le32(stream));
                assert(whole.skip(n as int) =~= stream.skip(n as int) + more);
                assert(whole.take(n as int) =~= stream.take(n as int));
                lemma_append(stream.skip(n as int), more);
                let tail = frames_of(DefaultFramer, stream.skip(n as int));
                let rest = frames_of(DefaultFramer, tail.1 + more);
                assert(seq![stream.take(n as int)] + (tail.0 + rest.0) =~= (seq![
                    stream.take(n as int),
                ] + tail.0) + rest.0);
            } else {
                let rest = frames_of(DefaultFramer, first.1 + more);
                assert(first.0 + rest.0 =~= rest.0);
            }
        },
        _ => {
            let rest = frames_of(DefaultFramer, first.1 + more);
            assert(first.0 + rest.0 =~= rest.0);
        },
    }
}

/// Receive order. However the stream is cut into reads, a reader with the
/// length-prefixed framer hands out the same frames in the same order as
/// if all the bytes had arrived at once, and keeps the same bytes back.
pub proof fn lemma_chunking(held: Seq<u8>, chunks: Seq<Seq<u8>>)
    ensures
        fed(DefaultFramer, held, chunks) == frames_of(DefaultFramer, held + wire(chunks)),
    decreases chunks.len(),
{
    if chunks.len() == 0 {
        assert(held + wire(chunks) =~= held);
    } else {
        let first = frames_of(DefaultFramer, held);
        lemma_chunking(first.1 + chunks[0], chunks.skip(1));
        lemma_append(held, wire(chunks));
        assert((first.1 + chunks[0]) + wire(chunks.skip(1)) =~= first.1 + wire(chunks));
    }
}

} // verus!
