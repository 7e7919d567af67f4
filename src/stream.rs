//! Recovering frame boundaries from a byte stream that arrives in chunks of
//! any size.
use vstd::prelude::*;
use crate::protocol::{decode, BasketballProtocol, ParseError, FRAME_LEN};

verus! {

/// The `i`-th whole frame of `s`.
pub open spec fn frame_at(s: Seq<u8>, i: int) -> Seq<u8> {
    s.subrange(FRAME_LEN * i, FRAME_LEN * i + FRAME_LEN)
}

/// Number of whole frames at the front of `s`.
pub open spec fn frame_count(s: Seq<u8>) -> nat {
    s.len() / (FRAME_LEN as nat)
}

/// What stays of `s` once its whole frames are taken off the front.
pub open spec fn residual(s: Seq<u8>) -> Seq<u8> {
    s.subrange(FRAME_LEN * frame_count(s), s.len() as int)
}

/// The frames of `s` decoded in order, stopping at the first that fails;
/// a trailing partial frame is ignored.
pub open spec fn decode_all(s: Seq<u8>) -> Result<Seq<BasketballProtocol>, ParseError>
    decreases s.len(),
{
    if s.len() < FRAME_LEN {
        Ok(Seq::empty())
    } else {
        match decode(s.subrange(0, FRAME_LEN as int)) {
            Err(e) => Err(e),
            Ok(p) => match decode_all(s.subrange(FRAME_LEN as int, s.len() as int)) {
                Err(e) => Err(e),
                Ok(rest) => Ok(seq![p] + rest),
            },
        }
    }
}

/// `done` followed by the outcome `rest`, where an error stays an error.
pub open spec fn prepend_all(
    done: Seq<BasketballProtocol>,
    rest: Result<Seq<BasketballProtocol>, ParseError>,
) -> Result<Seq<BasketballProtocol>, ParseError> {
    match rest {
        Err(e) => Err(e),
        Ok(r) => Ok(done + r),
    }
}

/// Copies `data[start..start + len]` into a new vector.
fn copy_range(data: &[u8], start: usize, len: usize) -> (r: Vec<u8>)
    requires
        start + len <= data@.len(),
    ensures
        r@ == data@.subrange(start as int, start + len),
{
    let mut r: Vec<u8> = Vec::with_capacity(len);
    let n = data.len();
    let mut i: usize = 0;
    while i < len
        invariant
            n == data@.len(),
            start + len <= data@.len(),
            i <= len,
            r@ == data@.subrange(start as int, start + i),
        decreases len - i,
    {
        r.push(data[start + i]);
        i = i + 1;
        assert(r@ =~= data@.subrange(start as int, start + i));
    }
    r
}

/// Decodes every whole frame of `data` in order. The first frame that fails
/// to decode makes the whole call fail with its error; trailing bytes short
/// of a frame are ignored.
pub fn parse_stream(data: &[u8]) -> (r: Result<Vec<BasketballProtocol>, ParseError>)
    ensures
        match r {
            Ok(v) => decode_all(data@) == Ok::<Seq<BasketballProtocol>, ParseError>(v@),
            Err(e) => decode_all(data@) == Err::<Seq<BasketballProtocol>, ParseError>(e),
        },
{
    let mut protocols: Vec<BasketballProtocol> = Vec::new();
    let mut offset: usize = 0;
    assert(data@.subrange(0, data@.len() as int) =~= data@);
    proof {
        if let Ok(all) = decode_all(data@) {
            assert(protocols@ + all =~= all);
        }
    }
    while offset <= data.len() && data.len() - offset >= FRAME_LEN
        invariant
            offset <= data@.len(),
            decode_all(data@) == prepend_all(
                protocols@,
                decode_all(data@.subrange(offset as int, data@.len() as int)),
            ),
        decreases data@.len() - offset,
    {
        let ghost rest = data@.subrange(offset as int, data@.len() as int);
        let frame = copy_range(data, offset, FRAME_LEN);
        assert(rest.subrange(0, FRAME_LEN as int) =~= frame@);
        assert(rest.subrange(FRAME_LEN as int, rest.len() as int) =~= data@.subrange(
            offset + FRAME_LEN,
            data@.len() as int,
        ));
        match BasketballProtocol::parse(frame.as_slice()) {
            Ok(protocol) => {
                let ghost before = protocols@;
                protocols.push(protocol);
                proof {
                    let tail = decode_all(data@.subrange(offset + FRAME_LEN, data@.len() as int));
                    if let Ok(t) = tail {
                        assert(before + (seq![protocol] + t) =~= protocols@ + t);
                    }
                }
            },
            Err(e) => {
                return Err(e);
            },
        }
        offset = offset + FRAME_LEN;
    }
    assert(data@.subrange(offset as int, data@.len() as int).len() < FRAME_LEN);
    assert(protocols@ + Seq::<BasketballProtocol>::empty() =~= protocols@);
    Ok(protocols)
}

/// The bytes of one connection that have arrived but do not yet make up a
/// whole frame.
pub struct StreamReassembler {
    buffer: Vec<u8>,
}

/// A chunk short of a frame gives no frame and is held back whole.
pub proof fn lemma_short_chunk_held(s: Seq<u8>)
    requires
        s.len() < FRAME_LEN,
    ensures
        frame_count(s) == 0,
        residual(s) == s,
{
    assert(s.subrange(0, s.len() as int) =~= s);
}

/// A held-back partial frame completed by the next chunk gives exactly that
/// one frame, and nothing stays behind.
pub proof fn lemma_completed_frame(held: Seq<u8>, chunk: Seq<u8>)
    requires
        held.len() < FRAME_LEN,
        held.len() + chunk.len() == FRAME_LEN,
    ensures
        frame_count(held + chunk) == 1,
        frame_at(held + chunk, 0) == held + chunk,
        residual(held + chunk) == Seq::<u8>::empty(),
{
    let all = held + chunk;
    assert(all.subrange(0, FRAME_LEN as int) =~= all);
    assert(residual(all) =~= Seq::<u8>::empty());
}

/// Bytes that are a whole number of frames come out as those frames, in
/// input order, with nothing held back.
pub proof fn lemma_whole_frames(s: Seq<u8>)
    requires
        s.len() % (FRAME_LEN as nat) == 0,
    ensures
        frame_count(s) * FRAME_LEN == s.len(),
        residual(s) == Seq::<u8>::empty(),
        forall|i: int|
            0 <= i < frame_count(s) ==> #[trigger] frame_at(s, i) == s.subrange(
                FRAME_LEN * i,
                FRAME_LEN * (i + 1),
            ),
{
    assert(residual(s) =~= Seq::<u8>::empty());
}

impl StreamReassembler {
    /// The bytes held back for the next call of `feed`.
    pub closed spec fn pending(&self) -> Seq<u8> {
        self.buffer@
    }

    /// Whether the held-back bytes are short of a frame, as they are
    /// between calls of `feed`.
    pub open spec fn wf(&self) -> bool {
        self.pending().len() < FRAME_LEN
    }

    /// A reassembler with nothing held back.
    pub fn new() -> (r: Self)
        ensures
            r.pending() == Seq::<u8>::empty(),
            r.wf(),
    {
        StreamReassembler { buffer: Vec::new() }
    }

    /// The bytes held back for the next call of `feed`.
    pub fn pending_bytes(&self) -> (r: &[u8])
        ensures
            r@ == self.pending(),
    {
        self.buffer.as_slice()
    }

    /// Appends `bytes` to what is held back and takes every whole frame off
    /// the front, in arrival order; fewer than 14 bytes stay behind. Frame
    /// contents are not looked at.
    pub fn feed(&mut self, bytes: &[u8]) -> (r: Vec<Vec<u8>>)
        requires
            old(self).pending().len() + bytes@.len() <= usize::MAX,
        ensures
            ({
                let all = old(self).pending() + bytes@;
                &&& r@.len() == frame_count(all)
                &&& forall|i: int| 0 <= i < r@.len() ==> (#[trigger] r@[i])@ == frame_at(all, i)
                &&& final(self).pending() == residual(all)
            }),
            final(self).wf(),
    {
        let ghost all = self.buffer@ + bytes@;
        let mut joined: Vec<u8> = Vec::with_capacity(self.buffer.len() + bytes.len());
        joined.extend_from_slice(self.buffer.as_slice());
        joined.extend_from_slice(bytes);
        assert(joined@ =~= all);
        let mut frames: Vec<Vec<u8>> = Vec::new();
        let mut offset: usize = 0;
        while offset <= joined.len() && joined.len() - offset >= FRAME_LEN
            invariant
                joined@ == all,
                offset == FRAME_LEN * frames@.len(),
                offset <= all.len(),
                forall|i: int| 0 <= i < frames@.len() ==> (#[trigger] frames@[i])@ == frame_at(all, i),
            decreases all.len() - offset,
        {
            let frame = copy_range(joined.as_slice(), offset, FRAME_LEN);
            frames.push(frame);
            offset = offset + FRAME_LEN;
        }
        assert(frames@.len() == frame_count(all));
        self.buffer = copy_range(joined.as_slice(), offset, joined.len() - offset);
        frames
    }
}

} // verus!
