//! A codec that decodes every byte to itself.
//!
//! It exists so that the engine can be exercised without a real
//! compression algorithm: output equals input, flushing holds nothing
//! back, and no byte stream is ever rejected.

use vstd::prelude::*;
use crate::buffer::PartialBuffer;
use crate::codec::{CodecError, Decode};

verus! {

/// The identity codec: every consumed byte is produced unchanged.
pub struct IdentityCodec {
    transferred: Ghost<Seq<u8>>,
}

impl IdentityCodec {
    /// A fresh identity codec that has consumed and produced nothing.
    pub fn new() -> (r: Self)
        ensures
            r.wf(),
            r.consumed() == Seq::<u8>::empty(),
            r.produced() == Seq::<u8>::empty(),
    {
        IdentityCodec { transferred: Ghost(Seq::empty()) }
    }
}

impl Decode for IdentityCodec {
    open spec fn wf(&self) -> bool {
        true
    }

    closed spec fn consumed(&self) -> Seq<u8> {
        self.transferred@
    }

    closed spec fn produced(&self) -> Seq<u8> {
        self.transferred@
    }

    fn decode(&mut self, input: &mut PartialBuffer, output: &mut PartialBuffer) -> (r: Result<
        bool,
        CodecError,
    >) {
        let ghost in0 = *input;
        let n = output.copy_unwritten_from(input);
        self.transferred = Ghost(self.transferred@ + in0.unwritten_seq().take(n as int));
        proof {
            assert(old(self).produced().is_prefix_of(self.produced())) by {
                assert(self.produced().subrange(0, old(self).produced().len() as int)
                    =~= old(self).produced());
            }
            assert(self.produced().skip(old(self).produced().len() as int)
                =~= in0.unwritten_seq().take(n as int));
            assert(in0.buf_seq().subrange(
                in0.spec_written_len(),
                input.spec_written_len(),
            ) =~= in0.unwritten_seq().take(n as int));
        }
        Ok(false)
    }

    fn finish(&mut self, output: &mut PartialBuffer) -> (r: Result<bool, CodecError>) {
        proof {
            assert(self.produced().skip(old(self).produced().len() as int)
                =~= Seq::<u8>::empty());
            assert(output.written_seq() =~= output.written_seq() + Seq::<u8>::empty());
        }
        Ok(true)
    }
}

} // verus!
