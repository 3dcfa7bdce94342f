//! The decoder state machine.
//!
//! [`Decoder`] owns an upstream handle, a codec and two buffer cursors and
//! turns a sequence of upstream answers into a sequence of decoded chunks.
//! It is a resumable step function: each call of [`Decoder::next`] takes
//! the upstream's latest answer (when one was asked for) and performs one
//! transition, telling the driver what to do next. The driver — an
//! asynchronous adapter outside this crate, or a plain loop in a test —
//! keeps stepping until the machine yields a chunk, suspends, finishes or
//! fails.

use vstd::prelude::*;
use crate::buffer::PartialBuffer;
use crate::codec::{CodecError, Decode};

verus! {

/// Free output capacity guaranteed before every codec call: the output
/// buffer is regrown by this fixed increment whenever the machine is about
/// to let the codec write.
pub const OUTPUT_BUFFER_SIZE: usize = 8000;

/// The phase of the state machine.
#[derive(Debug)]
pub enum State {
    /// Waiting for the next chunk from upstream.
    Reading,
    /// An input chunk is in flight through the codec.
    Writing,
    /// Upstream is exhausted; the codec is draining what it holds.
    Flushing,
    /// Terminal: nothing further will be pulled, decoded or yielded.
    Done,
}

/// The upstream byte source failed; its report is carried verbatim.
#[derive(Debug, PartialEq, Eq)]
pub struct UpstreamError {
    pub message: String,
}

/// The terminal error of a decoding pipeline.
#[derive(Debug, PartialEq, Eq)]
pub enum DecoderError {
    /// The byte source failed.
    Upstream(UpstreamError),
    /// The codec rejected the byte stream, or flushing failed.
    Codec(CodecError),
}

/// What the upstream source answered when it was polled.
#[derive(Debug)]
pub enum Event {
    /// The next raw chunk.
    Chunk(Vec<u8>),
    /// End of the upstream sequence; no further chunk will come.
    End,
    /// The source is not ready yet.
    Pending,
    /// The source failed.
    Failed(UpstreamError),
}

/// What the machine asks its driver to do after one step.
#[derive(Debug)]
pub enum Outcome {
    /// An internal transition was taken; step again with no event.
    Again,
    /// Poll the upstream source and step again with its answer.
    NeedInput,
    /// Nothing is accumulated and upstream is not ready: suspend, resume
    /// later with the machine's state intact.
    Suspend,
    /// Hand this decoded chunk to the consumer; it is never empty.
    Yielded(Vec<u8>),
    /// End of the decoded sequence.
    Finished,
    /// Terminal failure; every later step ends the sequence.
    Failed(DecoderError),
}

/// The state machine that pumps upstream chunks through a codec.
///
/// Its observable story is kept in four abstractions: `emitted` (every
/// byte yielded to the consumer so far, in order), `pulled` (every byte
/// received from upstream so far, in order), `saw_end` (whether upstream
/// reported end-of-sequence) and `errored` (whether a terminal error was
/// delivered). The central invariant ties them to the codec: as long as no
/// error occurred, `emitted` plus the bytes still pending in the output
/// buffer is exactly what the codec has produced, and the codec has
/// consumed a prefix of `pulled`.
pub struct Decoder<S, D: Decode> {
    stream: S,
    decoder: D,
    state: State,
    input: PartialBuffer,
    output: PartialBuffer,
    yielded_bytes: Ghost<Seq<u8>>,
    pulled_bytes: Ghost<Seq<u8>>,
    end_seen: Ghost<bool>,
    dec_done: Ghost<bool>,
    err: Ghost<bool>,
}

impl<S, D: Decode> Decoder<S, D> {
    /// The current phase.
    pub closed spec fn phase(&self) -> State {
        self.state
    }

    /// The owned upstream handle.
    pub closed spec fn upstream(&self) -> S {
        self.stream
    }

    /// The owned codec instance.
    pub closed spec fn codec(&self) -> D {
        self.decoder
    }

    /// Every byte yielded to the consumer so far, in order.
    pub closed spec fn emitted(&self) -> Seq<u8> {
        self.yielded_bytes@
    }

    /// Every byte received from upstream so far, in order.
    pub closed spec fn pulled(&self) -> Seq<u8> {
        self.pulled_bytes@
    }

    /// Decoded bytes accumulated but not yet handed to the consumer.
    pub closed spec fn pending(&self) -> Seq<u8> {
        self.output.written_seq()
    }

    /// Whether upstream has reported end-of-sequence.
    pub closed spec fn saw_end(&self) -> bool {
        self.end_seen@
    }

    /// Whether the codec has reported the end of its own stream: a decode
    /// step returned `true`, so the remainder of the input decodes to
    /// nothing and the machine may flush before upstream is exhausted.
    pub closed spec fn codec_finished(&self) -> bool {
        self.dec_done@
    }

    /// Whether a terminal error has been delivered.
    pub closed spec fn errored(&self) -> bool {
        self.err@
    }

    /// The machine's invariant, established by [`Decoder::new`] and
    /// preserved by every step.
    pub closed spec fn inv(&self) -> bool {
        &&& self.input.wf()
        &&& self.output.wf()
        &&& (self.err@ ==> self.state is Done)
        &&& (!self.err@ ==> self.yielded_bytes@ + self.output.written_seq()
            == self.decoder.produced())
        &&& ((self.state is Flushing || self.state is Done) ==> (self.end_seen@ || self.dec_done@
            || self.err@))
        &&& (self.input.unwritten_seq().len() > 0 ==> self.state is Writing)
        &&& (!(self.state is Done) ==> self.decoder.wf())
        &&& (!self.err@ && (self.state is Reading || self.state is Writing)
            ==> self.pulled_bytes@ == self.decoder.consumed() + self.input.unwritten_seq())
        &&& (!self.err@ && (self.state is Flushing || self.state is Done)
            ==> self.decoder.consumed().is_prefix_of(self.pulled_bytes@))
        &&& (self.state is Done ==> self.output.written_seq().len() == 0)
    }

    /// A machine around `stream` and a fresh codec, in Reading phase with
    /// nothing buffered, received or yielded.
    pub fn new(stream: S, decoder: D) -> (r: Self)
        requires
            decoder.wf(),
            decoder.consumed() == Seq::<u8>::empty(),
            decoder.produced() == Seq::<u8>::empty(),
        ensures
            r.inv(),
            r.phase() is Reading,
            r.upstream() == stream,
            r.codec() == decoder,
            r.emitted() == Seq::<u8>::empty(),
            r.pulled() == Seq::<u8>::empty(),
            r.pending() == Seq::<u8>::empty(),
            !r.saw_end(),
            !r.codec_finished(),
            !r.errored(),
    {
        let d = Decoder {
            stream,
            decoder,
            state: State::Reading,
            input: PartialBuffer::new(),
            output: PartialBuffer::new(),
            yielded_bytes: Ghost(Seq::empty()),
            pulled_bytes: Ghost(Seq::empty()),
            end_seen: Ghost(false),
            dec_done: Ghost(false),
            err: Ghost(false),
        };
        proof {
            assert(d.output.written_seq() =~= Seq::<u8>::empty());
            assert(d.input.unwritten_seq() =~= Seq::<u8>::empty());
            assert(d.yielded_bytes@ + d.output.written_seq() =~= Seq::<u8>::empty());
            assert(d.pulled_bytes@ =~= d.decoder.consumed() + d.input.unwritten_seq());
        }
        d
    }

    /// Read-only access to the upstream handle.
    pub fn get_ref(&self) -> (r: &S)
        ensures
            *r == self.upstream(),
    {
        &self.stream
    }

    /// Mutable access to the upstream handle. Only the handle can change
    /// through it; every other part of the machine is untouched.
    pub fn get_mut(&mut self) -> (r: &mut S)
        ensures
            *r == old(self).upstream(),
            final(self).upstream() == *final(r),
            final(self).phase() == old(self).phase(),
            final(self).codec() == old(self).codec(),
            final(self).emitted() == old(self).emitted(),
            final(self).pulled() == old(self).pulled(),
            final(self).pending() == old(self).pending(),
            final(self).saw_end() == old(self).saw_end(),
            final(self).codec_finished() == old(self).codec_finished(),
            final(self).errored() == old(self).errored(),
            final(self).inv() == old(self).inv(),
    {
        &mut self.stream
    }

    /// Reclaim the upstream handle, discarding the rest of the machine.
    pub fn into_inner(self) -> (r: S)
        ensures
            r == self.upstream(),
    {
        self.stream
    }

    /// One step of the machine.
    ///
    /// Pass `Some(event)` exactly when the previous step answered
    /// [`Outcome::NeedInput`]: the machine is then in Reading phase and the
    /// event is the upstream's answer. Pass `None` otherwise.
    ///
    /// Decoded chunks are yielded only at a genuine boundary: when the
    /// upstream answered [`Event::Pending`] while output was accumulated,
    /// or when flushing has just completed. Chunks are yielded in the order
    /// their bytes were produced, and `emitted` only ever grows by exactly
    /// the yielded chunk — no reordering, no loss, no duplication. Any
    /// upstream or codec error forces the terminal phase at once, discards
    /// accumulated output and is delivered exactly once; afterwards every
    /// step answers [`Outcome::Finished`] and changes nothing.
    pub fn next(&mut self, event: Option<Event>) -> (r: Outcome)
        requires
            old(self).inv(),
            event is Some ==> old(self).phase() is Reading,
        ensures
            final(self).inv(),
            final(self).upstream() == old(self).upstream(),
            old(self).emitted().is_prefix_of(final(self).emitted()),
            final(self).saw_end() == (old(self).saw_end() || event == Some(Event::End)),
            old(self).codec_finished() ==> final(self).codec_finished(),
            final(self).errored() == (old(self).errored() || (r matches Outcome::Failed(_))),
            final(self).pulled() == old(self).pulled() + (match event {
                Some(Event::Chunk(c)) => c@,
                _ => Seq::<u8>::empty(),
            }),
            old(self).phase() is Done ==> ((r matches Outcome::Finished) && *final(self)
                == *old(self)),
            (match event {
                Some(Event::Failed(u)) => r == Outcome::Failed(DecoderError::Upstream(u)),
                _ => true,
            }),
            (old(self).phase() is Reading && event is None) ==> r is NeedInput,
            old(self).phase() is Reading ==> final(self).codec() == old(self).codec(),
            (match event {
                Some(Event::Chunk(_)) => r is Again && final(self).phase() is Writing,
                Some(Event::End) => r is Again && final(self).phase() is Flushing,
                Some(Event::Pending) => r is Suspend || r is Yielded,
                _ => true,
            }),
            old(self).phase() is Writing ==> (r is Again || (r matches Outcome::Failed(
                DecoderError::Codec(_),
            ))),
            old(self).phase() is Flushing ==> (r is Again || r is Finished || r is Yielded || (
            r matches Outcome::Failed(DecoderError::Codec(_)))),
            (match r {
                Outcome::Again => {
                    &&& final(self).emitted() == old(self).emitted()
                    &&& !final(self).errored()
                    &&& !(final(self).phase() is Done)
                },
                Outcome::NeedInput => {
                    &&& event is None
                    &&& final(self).phase() is Reading
                    &&& final(self).emitted() == old(self).emitted()
                    &&& final(self).pending() == old(self).pending()
                    &&& !final(self).errored()
                    &&& final(self).codec().consumed() == final(self).pulled()
                },
                Outcome::Suspend => {
                    &&& event == Some(Event::Pending)
                    &&& final(self).phase() is Reading
                    &&& final(self).emitted() == old(self).emitted()
                    &&& final(self).pending().len() == 0
                    &&& old(self).pending().len() == 0
                    &&& !final(self).errored()
                },
                Outcome::Yielded(c) => {
                    &&& c@.len() > 0
                    &&& final(self).emitted() == old(self).emitted() + c@
                    &&& final(self).pending().len() == 0
                    &&& (final(self).phase() is Reading || final(self).phase() is Done)
                    &&& (event == Some(Event::Pending) || final(self).phase() is Done)
                    &&& !final(self).errored()
                },
                Outcome::Finished => {
                    &&& final(self).phase() is Done
                    &&& final(self).emitted() == old(self).emitted()
                    &&& final(self).pending().len() == 0
                },
                Outcome::Failed(e) => {
                    &&& final(self).phase() is Done
                    &&& final(self).errored()
                    &&& !old(self).errored()
                    &&& final(self).emitted() == old(self).emitted()
                    &&& final(self).pending().len() == 0
                    &&& (match e {
                        DecoderError::Upstream(u) => event == Some(Event::Failed(u)),
                        DecoderError::Codec(_) => !(event matches Some(Event::Failed(_))),
                    })
                },
            }),
    {
        match self.state {
            State::Done => {
                return Outcome::Finished;
            },
            _ => {},
        }

        // Top up the output buffer's free capacity before any codec call.
        let w = self.output.written_len();
        let target = if w <= usize::MAX - OUTPUT_BUFFER_SIZE {
            w + OUTPUT_BUFFER_SIZE
        } else {
            usize::MAX
        };
        self.output.grow_to(target);

        match self.state {
            State::Reading => {
                match event {
                    None => Outcome::NeedInput,
                    Some(Event::Chunk(c)) => {
                        self.pulled_bytes = Ghost(self.pulled_bytes@ + c@);
                        self.input = PartialBuffer::from_vec(c);
                        self.state = State::Writing;
                        proof {
                            assert(old(self).input.unwritten_seq() =~= Seq::<u8>::empty());
                            assert(self.pulled_bytes@ =~= self.decoder.consumed()
                                + self.input.unwritten_seq());
                        }
                        Outcome::Again
                    },
                    Some(Event::End) => {
                        self.end_seen = Ghost(true);
                        self.state = State::Flushing;
                        proof {
                            assert(old(self).input.unwritten_seq() =~= Seq::<u8>::empty());
                            assert(self.decoder.consumed().is_prefix_of(self.pulled_bytes@));
                        }
                        Outcome::Again
                    },
                    Some(Event::Pending) => {
                        if self.output.written_len() == 0 {
                            proof {
                                assert(old(self).pending() =~= Seq::<u8>::empty());
                            }
                            Outcome::Suspend
                        } else {
                            let chunk = self.output.take_written();
                            self.yielded_bytes = Ghost(self.yielded_bytes@ + chunk@);
                            proof {
                                assert(self.yielded_bytes@ + self.output.written_seq()
                                    =~= self.decoder.produced());
                            }
                            Outcome::Yielded(chunk)
                        }
                    },
                    Some(Event::Failed(u)) => {
                        self.input = PartialBuffer::new();
                        self.output = PartialBuffer::new();
                        self.state = State::Done;
                        self.err = Ghost(true);
                        proof {
                            assert(self.output.written_seq() =~= Seq::<u8>::empty());
                        }
                        Outcome::Failed(DecoderError::Upstream(u))
                    },
                }
            },
            State::Writing => {
                if self.input.unwritten_len() == 0 {
                    self.state = State::Reading;
                    Outcome::Again
                } else {
                    let ghost dec0 = self.decoder;
                    let ghost in0 = self.input;
                    let ghost out0 = self.output;
                    match self.decoder.decode(&mut self.input, &mut self.output) {
                        Err(e) => {
                            self.input = PartialBuffer::new();
                            self.output = PartialBuffer::new();
                            self.state = State::Done;
                            self.err = Ghost(true);
                            proof {
                                assert(self.output.written_seq() =~= Seq::<u8>::empty());
                            }
                            Outcome::Failed(DecoderError::Codec(e))
                        },
                        Ok(done) => {
                            proof {
                                assert(self.decoder.produced() =~= dec0.produced()
                                    + self.decoder.produced().skip(
                                    dec0.produced().len() as int,
                                ));
                                assert(self.yielded_bytes@ + self.output.written_seq()
                                    =~= self.decoder.produced());
                                assert(in0.unwritten_seq() =~= in0.buf_seq().subrange(
                                    in0.spec_written_len(),
                                    self.input.spec_written_len(),
                                ) + self.input.unwritten_seq());
                                assert(self.pulled_bytes@ =~= self.decoder.consumed()
                                    + self.input.unwritten_seq());
                            }
                            if done {
                                self.input = PartialBuffer::new();
                                self.state = State::Flushing;
                                self.dec_done = Ghost(true);
                                proof {
                                    assert(self.decoder.consumed().is_prefix_of(
                                        self.pulled_bytes@,
                                    ));
                                }
                            }
                            Outcome::Again
                        },
                    }
                }
            },
            State::Flushing => {
                let ghost dec0 = self.decoder;
                match self.decoder.finish(&mut self.output) {
                    Err(e) => {
                        self.input = PartialBuffer::new();
                        self.output = PartialBuffer::new();
                        self.state = State::Done;
                        self.err = Ghost(true);
                        proof {
                            assert(self.output.written_seq() =~= Seq::<u8>::empty());
                        }
                        Outcome::Failed(DecoderError::Codec(e))
                    },
                    Ok(done) => {
                        proof {
                            assert(self.decoder.produced() =~= dec0.produced()
                                + self.decoder.produced().skip(dec0.produced().len() as int));
                            assert(self.yielded_bytes@ + self.output.written_seq()
                                =~= self.decoder.produced());
                        }
                        if done {
                            self.state = State::Done;
                            let chunk = self.output.take_written();
                            if chunk.len() == 0 {
                                proof {
                                    assert(self.yielded_bytes@ + self.output.written_seq()
                                        =~= self.decoder.produced());
                                }
                                Outcome::Finished
                            } else {
                                self.yielded_bytes = Ghost(self.yielded_bytes@ + chunk@);
                                proof {
                                    assert(self.yielded_bytes@ + self.output.written_seq()
                                        =~= self.decoder.produced());
                                }
                                Outcome::Yielded(chunk)
                            }
                        } else {
                            Outcome::Again
                        }
                    },
                }
            },
            State::Done => Outcome::Finished,
        }
    }
}

/// Completeness: once the machine is Done without an error, the
/// concatenation of all yielded chunks is exactly what the codec produced,
/// and the codec consumed a prefix of the bytes pulled from upstream, in
/// arrival order.
pub proof fn lemma_completeness<S, D: Decode>(d: &Decoder<S, D>)
    requires
        d.inv(),
        d.phase() is Done,
        !d.errored(),
    ensures
        d.emitted() == d.codec().produced(),
        d.codec().consumed().is_prefix_of(d.pulled()),
{
    assert(d.emitted() + d.pending() =~= d.emitted());
}

/// Empty input: a machine that completed without an error and without
/// ever receiving a byte from upstream has yielded exactly the codec's
/// flush-only output, and the codec consumed nothing.
pub proof fn lemma_empty_input<S, D: Decode>(d: &Decoder<S, D>)
    requires
        d.inv(),
        d.phase() is Done,
        !d.errored(),
        d.pulled() == Seq::<u8>::empty(),
    ensures
        d.emitted() == d.codec().produced(),
        d.codec().consumed() == Seq::<u8>::empty(),
{
    lemma_completeness(d);
    assert(d.codec().consumed() =~= Seq::<u8>::empty());
}

/// Error terminality: a machine that has delivered an error is Done, so by
/// the contract of [`Decoder::next`] every later step answers Finished and
/// changes nothing.
pub proof fn lemma_error_is_terminal<S, D: Decode>(d: &Decoder<S, D>)
    requires
        d.inv(),
        d.errored(),
    ensures
        d.phase() is Done,
{
}

/// No premature completion: the machine reaches Done only after upstream
/// reported end-of-sequence — unless a terminal error forced it there, or
/// the codec itself reported the end of its own stream, which lets the
/// machine flush and complete while upstream still has chunks.
pub proof fn lemma_no_premature_done<S, D: Decode>(d: &Decoder<S, D>)
    requires
        d.inv(),
        d.phase() is Done,
    ensures
        d.saw_end() || d.codec_finished() || d.errored(),
{
}

} // verus!
