//! Reference decoder: a minimal length-prefixed framing.
//!
//! A frame is one magic byte (`FRAME_MAGIC`), one length byte `L`, and `L`
//! payload bytes. A buffer whose first byte is not the magic byte is
//! malformed; anything shorter than a whole frame needs more data. The
//! decoded message is the payload.
//!
//! On a framing error this decoder discards its buffer and resynchronizes at
//! the next byte delivered, so decoding can succeed again afterwards.

use vstd::prelude::*;

use crate::decoder::DecodeKind;
use crate::decoder::Decoder;

verus! {

/// First byte of every well-formed frame.
pub const FRAME_MAGIC: u8 = 0x7e;

/// Framing violation: the first buffered byte was not `FRAME_MAGIC`.
#[derive(Clone, Copy, PartialEq, Eq, Structural, Debug)]
pub struct FrameError {
    /// The byte found where the magic byte was expected.
    pub found: u8,
}

/// How `FrameDecoder` reads a buffer content.
pub open spec fn frame_classify(b: Seq<u8>) -> DecodeKind {
    if b.len() >= 1 && b[0] != FRAME_MAGIC {
        DecodeKind::Malformed
    } else if b.len() >= 2 && b.len() >= 2 + b[1] {
        DecodeKind::Complete
    } else {
        DecodeKind::NeedMore
    }
}

/// How many further bytes `FrameDecoder` asks for: the header one byte at a
/// time, then the rest of the announced frame; one byte to resynchronize when
/// a whole frame is already buffered.
pub open spec fn frame_demand(b: Seq<u8>) -> nat {
    if b.len() < 2 {
        1
    } else if b.len() < 2 + b[1] {
        (2 + b[1] - b.len()) as nat
    } else {
        1
    }
}

/// The payload of a complete frame: the `b[1]` bytes after the header.
pub open spec fn frame_payload(b: Seq<u8>) -> Seq<u8> {
    b.subrange(2, 2 + b[1])
}

/// The reference decoder: one growable buffer, refilled frame by frame.
pub struct FrameDecoder {
    buf: Vec<u8>,
}

impl FrameDecoder {
    /// An empty decoder, ready for the first frame.
    pub fn new() -> (r: FrameDecoder)
        ensures
            r.buffered() == Seq::<u8>::empty(),
    {
        FrameDecoder { buf: Vec::new() }
    }
}

impl Decoder for FrameDecoder {
    type Message = Vec<u8>;

    type Error = FrameError;

    closed spec fn buffered(&self) -> Seq<u8> {
        self.buf@
    }

    open spec fn classify(bytes: Seq<u8>) -> DecodeKind {
        frame_classify(bytes)
    }

    open spec fn demand(bytes: Seq<u8>) -> nat {
        frame_demand(bytes)
    }

    open spec fn decodes_to(bytes: Seq<u8>, m: Vec<u8>) -> bool {
        m@ == frame_payload(bytes)
    }

    open spec fn fails_with(bytes: Seq<u8>, e: FrameError) -> bool {
        bytes.len() >= 1 && e.found == bytes[0]
    }

    fn supply_buffer(&mut self) -> (n: usize) {
        if self.buf.len() < 2 {
            1
        } else {
            let total: usize = 2 + self.buf[1] as usize;
            if self.buf.len() < total {
                total - self.buf.len()
            } else {
                1
            }
        }
    }

    fn fill_buffer(&mut self, data: &[u8]) {
        let mut i: usize = 0;
        while i < data.len()
            invariant
                i <= data@.len(),
                self.buf@ == old(self).buf@ + data@.subrange(0, i as int),
            decreases data@.len() - i,
        {
            let b = data[i];
            self.buf.push(b);
            i = i + 1;
            proof {
                assert(data@.subrange(0, i as int) == data@.subrange(0, i - 1).push(
                    data@[i - 1],
                ));
            }
        }
        proof {
            assert(data@.subrange(0, data@.len() as int) == data@);
        }
    }

    fn try_decode(&mut self) -> (r: Result<Option<Vec<u8>>, FrameError>) {
        if self.buf.len() >= 1 {
            let head = self.buf[0];
            if head != FRAME_MAGIC {
                // Recovery policy of this decoder: drop the rejected bytes and
                // resynchronize at the next byte delivered.
                self.buf.clear();
                return Err(FrameError { found: head });
            }
        }
        if self.buf.len() >= 2 {
            let total: usize = 2 + self.buf[1] as usize;
            if self.buf.len() >= total {
                let mut payload: Vec<u8> = Vec::new();
                let mut i: usize = 2;
                while i < total
                    invariant
                        2 <= i <= total,
                        total == 2 + self.buf@[1],
                        self.buf@.len() >= total,
                        self.buf@ == old(self).buf@,
                        payload@ == self.buf@.subrange(2, i as int),
                    decreases total - i,
                {
                    let b = self.buf[i];
                    payload.push(b);
                    i = i + 1;
                    proof {
                        assert(self.buf@.subrange(2, i as int) == self.buf@.subrange(
                            2,
                            i - 1,
                        ).push(self.buf@[i - 1]));
                    }
                }
                self.buf.clear();
                return Ok(Some(payload));
            }
        }
        Ok(None)
    }
}

} // verus!
