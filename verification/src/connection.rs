//! The feed of a connection: each binary websocket message carries gateway messages,
//! each preceded by its length as two big-endian bytes. A `FrameReader` holds the
//! bytes of the last binary message not yet handed out and splits them into frames.

use vstd::prelude::*;

use crate::error::OpenfeedError;

verus! {

/// The length that a frame header announces: the first two bytes, big-endian.
pub open spec fn declared_len(rem: Seq<u8>) -> nat
    recommends
        rem.len() >= 2,
{
    rem[0] as nat * 256 + rem[1] as nat
}

/// Where the frame that starts the bytes ends: after its header and its body.
pub open spec fn frame_end(rem: Seq<u8>) -> int {
    2 + declared_len(rem) as int
}

/// The bytes hold no complete header, or the body that their header announces lies
/// within them.
pub open spec fn frame_fits(rem: Seq<u8>) -> bool {
    rem.len() >= 2 ==> frame_end(rem) <= rem.len()
}

/// The frames that the bytes hold, in order, read while a header is present and the
/// body it announces is there; what follows the last whole frame is no frame.
pub open spec fn split_frames(rem: Seq<u8>) -> Seq<Seq<u8>>
    decreases rem.len(),
{
    if rem.len() >= 2 && frame_fits(rem) {
        seq![rem.subrange(2, frame_end(rem))] + split_frames(rem.skip(frame_end(rem)))
    } else {
        Seq::empty()
    }
}

/// One frame on the wire: its length as two big-endian bytes, then its bytes.
pub open spec fn encode_frame(frame: Seq<u8>) -> Seq<u8> {
    seq![(frame.len() / 256) as u8, (frame.len() % 256) as u8] + frame
}

/// Frames on the wire, one after the other.
pub open spec fn encode_frames(frames: Seq<Seq<u8>>) -> Seq<u8>
    decreases frames.len(),
{
    if frames.len() == 0 {
        Seq::empty()
    } else {
        encode_frame(frames[0]) + encode_frames(frames.drop_first())
    }
}

/// Every frame is short enough for its length to fit in two bytes.
pub open spec fn frames_encodable(frames: Seq<Seq<u8>>) -> bool {
    forall|i: int| 0 <= i < frames.len() ==> #[trigger] frames[i].len() < 65536
}

/// Splitting what a sender wrote gives back the frames it wrote, in order, however
/// many there are and whatever they hold, as long as each fits a two-byte length;
/// taking one frame off the bytes leaves the encoding of the frames that follow.
pub proof fn lemma_split_encoded_frames(frames: Seq<Seq<u8>>)
    requires
        frames_encodable(frames),
    ensures
        split_frames(encode_frames(frames)) == frames,
        frame_fits(encode_frames(frames)),
        frames.len() == 0 ==> encode_frames(frames).len() == 0,
        frames.len() > 0 ==> {
            &&& encode_frames(frames).len() >= 2
            &&& declared_len(encode_frames(frames)) == frames[0].len()
            &&& encode_frames(frames).skip(frame_end(encode_frames(frames))) == encode_frames(
                frames.drop_first(),
            )
        },
    decreases frames.len(),
{
    if frames.len() > 0 {
        let f = frames[0];
        let rest = frames.drop_first();
        assert(frames_encodable(rest)) by {
            assert forall|i: int| 0 <= i < rest.len() implies #[trigger] rest[i].len() < 65536 by {
                assert(rest[i] == frames[i + 1]);
            }
        }
        lemma_split_encoded_frames(rest);
        let bytes = encode_frames(frames);
        let tail = encode_frames(rest);
        assert(f.len() < 65536);
        assert(bytes == encode_frame(f) + tail);
        assert(bytes[0] == (f.len() / 256) as u8);
        assert(bytes[1] == (f.len() % 256) as u8);
        assert(declared_len(bytes) == f.len());
        assert(bytes.subrange(2, frame_end(bytes)) =~= f);
        assert(bytes.skip(frame_end(bytes)) =~= tail);
        assert(split_frames(bytes) =~= seq![f] + split_frames(tail));
        assert(seq![f] + rest =~= frames);
    }
}

/// The bytes of the last binary message that have not been handed out as frames.
pub struct FrameReader {
    buf: Vec<u8>,
    pos: usize,
}

impl View for FrameReader {
    type V = Seq<u8>;

    closed spec fn view(&self) -> Seq<u8> {
        self.buf@.skip(self.pos as int)
    }
}

/// What the socket delivered when the reader asked for more bytes.
pub enum SocketEvent {
    /// A binary message with these bytes.
    Binary(Vec<u8>),
    /// A message of another kind (text, ping, pong, ...).
    NonBinary,
    /// The connection was closed.
    Closed,
    /// Reading failed with this error.
    Failed(OpenfeedError),
}

/// What the feed does after an event.
pub enum FeedStep {
    /// Look for a frame again, and read again if there is none.
    Continue,
    /// The feed is over.
    End,
    /// The feed yields this error.
    Fail(OpenfeedError),
}

impl FrameReader {
    #[verifier::type_invariant]
    spec fn inv(self) -> bool {
        self.pos <= self.buf.len()
    }

    /// A reader that holds no bytes yet.
    pub fn new() -> (r: Self)
        ensures
            r@ == Seq::<u8>::empty(),
    {
        let r = FrameReader { buf: Vec::new(), pos: 0 };
        assert(r@ =~= Seq::<u8>::empty());
        r
    }

    /// Whether taking the next frame is possible: no complete header is held, or the
    /// body that the header announces is all there.
    pub fn next_frame_fits(&self) -> (b: bool)
        ensures
            b == frame_fits(self@),
    {
        proof {
            use_type_invariant(self);
        }
        let avail = self.buf.len() - self.pos;
        if avail < 2 {
            true
        } else {
            let hi = self.buf[self.pos];
            let lo = self.buf[self.pos + 1];
            let len = (hi as usize) * 256 + (lo as usize);
            assert(self@[0] == hi && self@[1] == lo);
            len <= avail - 2
        }
    }

    /// Takes the next frame when at least a header is held; `None` when the reader
    /// needs another message. A header whose body is not all there cannot be taken.
    pub fn next_frame(&mut self) -> (r: Option<Vec<u8>>)
        requires
            frame_fits(old(self)@),
        ensures
            old(self)@.len() < 2 ==> r is None && final(self)@ == old(self)@,
            old(self)@.len() >= 2 ==> r is Some && r->0@ == old(self)@.subrange(
                2,
                frame_end(old(self)@),
            ) && final(self)@ == old(self)@.skip(frame_end(old(self)@)),
            r is None ==> split_frames(old(self)@) == Seq::<Seq<u8>>::empty(),
            r matches Some(f) ==> split_frames(old(self)@) == seq![f@] + split_frames(final(self)@),
    {
        proof {
            use_type_invariant(&*self);
        }
        let ghost rem = self@;
        let avail = self.buf.len() - self.pos;
        if avail < 2 {
            return None;
        }
        let hi = self.buf[self.pos];
        let lo = self.buf[self.pos + 1];
        assert(rem[0] == hi && rem[1] == lo);
        let len = (hi as usize) * 256 + (lo as usize);
        let start = self.pos + 2;
        let end = start + len;
        let mut frame: Vec<u8> = Vec::with_capacity(len);
        let mut i = start;
        while i < end
            invariant
                start <= i <= end <= self.buf.len(),
                frame@ =~= self.buf@.subrange(start as int, i as int),
            decreases end - i,
        {
            frame.push(self.buf[i]);
            i = i + 1;
        }
        self.pos = end;
        assert(frame@ =~= rem.subrange(2, frame_end(rem)));
        assert(self@ =~= rem.skip(frame_end(rem)));
        Some(frame)
    }

    /// Handles what the socket delivered once no header is left: the bytes of a
    /// binary message replace what was held (a lone leftover byte is dropped), other
    /// messages are skipped, a close ends the feed and a failure is yielded.
    pub fn on_event(&mut self, event: SocketEvent) -> (step: FeedStep)
        requires
            old(self)@.len() < 2,
        ensures
            match event {
                SocketEvent::Binary(data) => step is Continue && final(self)@ == data@,
                SocketEvent::NonBinary => step is Continue && final(self)@ == old(self)@,
                SocketEvent::Closed => step is End && final(self)@ == old(self)@,
                SocketEvent::Failed(e) => step == FeedStep::Fail(e) && final(self)@ == old(
                    self,
                )@,
            },
    {
        match event {
            SocketEvent::Binary(data) => {
                *self = FrameReader { buf: data, pos: 0 };
                assert(self@ =~= data@);
                FeedStep::Continue
            },
            SocketEvent::NonBinary => FeedStep::Continue,
            SocketEvent::Closed => FeedStep::End,
            SocketEvent::Failed(e) => FeedStep::Fail(e),
        }
    }
}

} // verus!
