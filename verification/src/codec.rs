//! The contract a pluggable decoding codec must meet.
//!
//! The decoder core drives a codec through two operations: a step that
//! consumes part of an input chunk and writes decoded bytes, and a flush
//! that drains whatever the codec still holds once no more input will
//! arrive. The codec's behaviour is abstracted by two sequences: the bytes
//! it has consumed so far and the bytes it has produced so far.

use vstd::prelude::*;
use crate::buffer::PartialBuffer;

verus! {

/// The decoding algorithm rejected the byte stream, or flushing failed.
#[derive(Debug, PartialEq, Eq)]
pub struct CodecError {
    pub message: String,
}

/// A pluggable decoding algorithm.
///
/// An implementation carries its own internal state; the two spec
/// sequences [`Decode::consumed`] and [`Decode::produced`] abstract it:
/// every byte the codec has taken from an input cursor lands at the end of
/// `consumed`, and every byte it has written into an output cursor comes
/// off the end of `produced`. A codec only ever appends to either.
pub trait Decode: Sized {
    /// The codec's internal state is consistent.
    spec fn wf(&self) -> bool;

    /// All input bytes this codec instance has consumed so far, in order.
    spec fn consumed(&self) -> Seq<u8>;

    /// All decoded bytes this codec instance has produced so far, in order.
    spec fn produced(&self) -> Seq<u8>;

    /// One decoding step: consume some prefix of `input`'s unread suffix
    /// (zero or more bytes) and write some decoded bytes into `output`'s
    /// free capacity (zero or more, bounded by that capacity).
    ///
    /// `Ok(true)` means the codec has seen the end of its own stream and
    /// further input would decode to nothing; the caller then moves on to
    /// flushing. `Ok(false)` asks for more input or more output capacity.
    /// `Err` means the byte stream is structurally invalid for this codec.
    fn decode(&mut self, input: &mut PartialBuffer, output: &mut PartialBuffer) -> (r: Result<
        bool,
        CodecError,
    >)
        requires
            old(self).wf(),
            old(input).wf(),
            old(output).wf(),
        ensures
            final(input).wf(),
            final(output).wf(),
            final(input).buf_seq() == old(input).buf_seq(),
            old(input).spec_written_len() <= final(input).spec_written_len(),
            final(input).spec_written_len() <= final(input).buf_seq().len(),
            final(output).buf_seq().len() == old(output).buf_seq().len(),
            old(output).spec_written_len() <= final(output).spec_written_len(),
            r is Ok ==> final(self).wf(),
            r is Ok ==> old(self).produced().is_prefix_of(final(self).produced()),
            r is Ok ==> final(output).written_seq() == old(output).written_seq()
                + final(self).produced().skip(old(self).produced().len() as int),
            r is Ok ==> final(self).consumed() == old(self).consumed()
                + old(input).buf_seq().subrange(
                old(input).spec_written_len(),
                final(input).spec_written_len(),
            ),
    ;

    /// Flush: write decoded bytes the codec still holds internally into
    /// `output`'s free capacity, once no more input chunks remain.
    ///
    /// `Ok(true)` means flushing is complete; `Ok(false)` asks to be
    /// called again with more output capacity. `Err` means flushing
    /// failed. Flushing consumes no input.
    fn finish(&mut self, output: &mut PartialBuffer) -> (r: Result<bool, CodecError>)
        requires
            old(self).wf(),
            old(output).wf(),
        ensures
            final(output).wf(),
            final(output).buf_seq().len() == old(output).buf_seq().len(),
            old(output).spec_written_len() <= final(output).spec_written_len(),
            r is Ok ==> final(self).wf(),
            r is Ok ==> final(self).consumed() == old(self).consumed(),
            r is Ok ==> old(self).produced().is_prefix_of(final(self).produced()),
            r is Ok ==> final(output).written_seq() == old(output).written_seq()
                + final(self).produced().skip(old(self).produced().len() as int),
    ;
}

} // verus!
