//! The pluggable message framer consumed by the event loop.
//!
//! A decoder owns a growable byte buffer. The loop asks it how many bytes it
//! needs next (`supply_buffer`), hands it exactly that many freshly received
//! bytes once they have all arrived (`fill_buffer` — partial fills never reach
//! the decoder), and then asks it to parse what is buffered (`try_decode`).

use vstd::prelude::*;

verus! {

/// What a sequence of buffered bytes means to a decoder: a complete message,
/// not enough data yet, or a framing violation.
pub enum DecodeKind {
    Complete,
    NeedMore,
    Malformed,
}

/// A stateful message framer.
///
/// The specification side is four functions over the buffered bytes:
/// `classify` says whether the bytes form a complete message, need more data,
/// or are malformed; `demand` says how many further bytes the decoder asks
/// for; `decodes_to` relates complete bytes to the message they carry;
/// `fails_with` relates malformed bytes to the error value reported.
pub trait Decoder: Sized {
    type Message;
    type Error;

    /// The bytes currently held in the internal buffer.
    spec fn buffered(&self) -> Seq<u8>;

    /// How a given buffer content decodes.
    spec fn classify(bytes: Seq<u8>) -> DecodeKind;

    /// How many bytes the decoder asks for on top of a given buffer content
    /// before the next decode attempt.
    spec fn demand(bytes: Seq<u8>) -> nat;

    /// The message carried by a buffer content classified `Complete`.
    spec fn decodes_to(bytes: Seq<u8>, m: Self::Message) -> bool;

    /// The error reported for a buffer content classified `Malformed`.
    spec fn fails_with(bytes: Seq<u8>, e: Self::Error) -> bool;

    /// Lower bound on the bytes needed before the next decode attempt.
    /// Restartable: asking again without having delivered the previous
    /// region leaves the buffered bytes untouched.
    fn supply_buffer(&mut self) -> (n: usize)
        ensures
            n > 0,
            n == Self::demand(old(self).buffered()),
            final(self).buffered() == old(self).buffered(),
    ;

    /// Store one completely filled region of freshly received bytes.
    fn fill_buffer(&mut self, data: &[u8])
        ensures
            final(self).buffered() == old(self).buffered() + data@,
    ;

    /// Attempt to parse the buffered bytes.
    ///
    /// - Complete: returns the message; the internal buffer is emptied.
    /// - Need more: returns `Ok(None)`; the buffer is left intact.
    /// - Malformed: returns the framing error; the buffer content is no
    ///   longer meaningful for decoding and nothing is promised of it.
    fn try_decode(&mut self) -> (r: Result<Option<Self::Message>, Self::Error>)
        ensures
            match Self::classify(old(self).buffered()) {
                DecodeKind::Complete => ({
                    &&& r matches Ok(Some(m)) && Self::decodes_to(old(self).buffered(), m)
                    &&& final(self).buffered() == Seq::<u8>::empty()
                }),
                DecodeKind::NeedMore => ({
                    &&& r matches Ok(None)
                    &&& final(self).buffered() == old(self).buffered()
                }),
                DecodeKind::Malformed => (r matches Err(e) && Self::fails_with(
                    old(self).buffered(),
                    e,
                )),
            },
    ;
}

} // verus!
