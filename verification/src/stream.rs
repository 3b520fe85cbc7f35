//! The opcode stream: a byte source over a loaded program image, supporting
//! one-token lookahead (`peek`, which never consumes) and consumption
//! (`next`). Exhaustion is a normal, explicit outcome, never a crash.
//!
//! The view of a stream is the sequence of bytes not yet consumed, so a
//! caller can tell how many bytes a decode took by comparing lengths, or by
//! comparing `position` before and after.

use vstd::prelude::*;

verus! {

/// A cursor over a byte buffer, consumed strictly left to right.
pub struct OpcodeStream {
    bytes: Vec<u8>,
    pos: usize,
}

impl View for OpcodeStream {
    type V = Seq<u8>;

    /// The bytes not yet consumed.
    closed spec fn view(&self) -> Seq<u8> {
        self.bytes@.skip(self.pos as int)
    }
}

impl OpcodeStream {
    /// The cursor never runs past the end of the buffer.
    pub closed spec fn wf(self) -> bool {
        self.pos <= self.bytes@.len()
    }

    /// A stream positioned at the start of a program image.
    pub fn new(bytes: Vec<u8>) -> (s: Self)
        ensures
            s.wf(),
            s@ == bytes@,
            s.position() == 0,
    {
        let s = OpcodeStream { bytes, pos: 0 };
        proof {
            assert(s@ =~= s.bytes@);
        }
        s
    }

    /// How many bytes have been consumed so far.
    pub closed spec fn position(self) -> nat {
        self.pos as nat
    }

    /// The number of bytes consumed so far, for callers advancing their own
    /// instruction pointer.
    pub fn current_position(&self) -> (n: usize)
        ensures
            n == self.position(),
    {
        self.pos
    }

    /// How many bytes remain to be consumed.
    pub fn remaining_len(&self) -> (n: usize)
        requires
            self.wf(),
        ensures
            n == self@.len(),
    {
        self.bytes.len() - self.pos
    }

    /// Look at the next byte without consuming it, or report exhaustion.
    pub fn peek(&self) -> (r: Option<u8>)
        requires
            self.wf(),
        ensures
            self@.len() == 0 ==> r is None,
            self@.len() > 0 ==> r == Some(self@[0]),
    {
        if self.pos < self.bytes.len() {
            Some(self.bytes[self.pos])
        } else {
            None
        }
    }

    /// Consume and return the next byte, or report exhaustion and leave the
    /// stream unchanged.
    pub fn next(&mut self) -> (r: Option<u8>)
        requires
            old(self).wf(),
        ensures
            final(self).wf(),
            old(self)@.len() == 0 ==> r is None && *final(self) == *old(self),
            old(self)@.len() > 0 ==> r == Some(old(self)@[0]) && final(self)@ == old(self)@.skip(1)
                && final(self).position() == old(self).position() + 1,
    {
        if self.pos < self.bytes.len() {
            let b = self.bytes[self.pos];
            self.pos = self.pos + 1;
            proof {
                assert(self@ =~= old(self)@.skip(1));
            }
            Some(b)
        } else {
            None
        }
    }
}

} // verus!
