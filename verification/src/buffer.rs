//! A cursor over an owned, growable byte buffer.
//!
//! The buffer is logically split into a written prefix and an unwritten
//! suffix. Used for output it tracks how many decoded bytes have been
//! produced so far; used for input it tracks how many bytes the codec has
//! already consumed.

use vstd::prelude::*;

verus! {

/// A growable byte buffer together with a split point: everything before
/// `written` has been written (or consumed), everything after it is still
/// free (or unread).
pub struct PartialBuffer {
    buf: Vec<u8>,
    written: usize,
}

impl PartialBuffer {
    /// The split point never passes the end of the buffer.
    pub open spec fn wf(&self) -> bool {
        0 <= self.spec_written_len() <= self.buf_seq().len()
    }

    /// The whole underlying buffer.
    pub closed spec fn buf_seq(&self) -> Seq<u8> {
        self.buf@
    }

    /// Where the written prefix ends.
    pub closed spec fn spec_written_len(&self) -> int {
        self.written as int
    }

    /// The written (or consumed) prefix.
    pub open spec fn written_seq(&self) -> Seq<u8> {
        self.buf_seq().take(self.spec_written_len())
    }

    /// The unwritten (or unread) suffix.
    pub open spec fn unwritten_seq(&self) -> Seq<u8> {
        self.buf_seq().skip(self.spec_written_len())
    }

    /// An empty buffer with nothing written.
    pub fn new() -> (r: Self)
        ensures
            r.wf(),
            r.buf_seq() == Seq::<u8>::empty(),
            r.spec_written_len() == 0,
    {
        PartialBuffer { buf: Vec::new(), written: 0 }
    }

    /// A cursor over `v` with nothing written yet.
    pub fn from_vec(v: Vec<u8>) -> (r: Self)
        ensures
            r.wf(),
            r.buf_seq() == v@,
            r.spec_written_len() == 0,
    {
        PartialBuffer { buf: v, written: 0 }
    }

    /// Length of the written prefix.
    pub fn written_len(&self) -> (n: usize)
        ensures
            n == self.spec_written_len(),
    {
        self.written
    }

    /// Length of the unwritten suffix.
    pub fn unwritten_len(&self) -> (n: usize)
        requires
            self.wf(),
        ensures
            n == self.unwritten_seq().len(),
    {
        self.buf.len() - self.written
    }

    /// Read the `i`-th byte of the unwritten suffix without consuming it.
    pub fn unwritten_at(&self, i: usize) -> (b: u8)
        requires
            self.wf(),
            i < self.unwritten_seq().len(),
        ensures
            b == self.unwritten_seq()[i as int],
    {
        proof {
            assert(self.buf.len() == self.buf_seq().len());
            assert(self.unwritten_seq().len() == self.buf_seq().len() - self.spec_written_len());
        }
        self.buf[self.written + i]
    }

    /// Mark `n` further bytes as written, moving the split point forward.
    pub fn advance(&mut self, n: usize)
        requires
            old(self).wf(),
            n <= old(self).unwritten_seq().len(),
        ensures
            final(self).wf(),
            final(self).buf_seq() == old(self).buf_seq(),
            final(self).spec_written_len() == old(self).spec_written_len() + n,
    {
        proof {
            assert(self.buf.len() == self.buf_seq().len());
            assert(self.unwritten_seq().len() == self.buf_seq().len() - self.spec_written_len());
        }
        self.written = self.written + n;
    }

    /// Overwrite the first unwritten byte with `b` and mark it written.
    pub fn write_next(&mut self, b: u8)
        requires
            old(self).wf(),
            old(self).unwritten_seq().len() > 0,
        ensures
            final(self).wf(),
            final(self).buf_seq().len() == old(self).buf_seq().len(),
            final(self).spec_written_len() == old(self).spec_written_len() + 1,
            final(self).written_seq() == old(self).written_seq() + seq![b],
    {
        proof {
            assert(self.buf.len() == self.buf_seq().len());
            assert(self.unwritten_seq().len() == self.buf_seq().len() - self.spec_written_len());
        }
        let i = self.written;
        self.buf[i] = b;
        self.written = self.written + 1;
        proof {
            assert(self.written_seq() =~= old(self).written_seq() + seq![b]);
        }
    }

    /// Extend the underlying buffer with zero bytes until it holds at least
    /// `target` bytes. The written prefix is untouched; only free capacity
    /// is added. Growing is the owner's job, done before a codec step.
    pub fn grow_to(&mut self, target: usize)
        requires
            old(self).wf(),
        ensures
            final(self).wf(),
            final(self).spec_written_len() == old(self).spec_written_len(),
            final(self).written_seq() == old(self).written_seq(),
            final(self).buf_seq().len() >= target,
            final(self).buf_seq().len() >= old(self).buf_seq().len(),
    {
        while self.buf.len() < target
            invariant
                self.wf(),
                self.spec_written_len() == old(self).spec_written_len(),
                self.buf_seq().len() >= old(self).buf_seq().len(),
                self.written_seq() == old(self).written_seq(),
            decreases target - self.buf_seq().len(),
        {
            self.buf.push(0u8);
            proof {
                assert(self.written_seq() =~= old(self).written_seq());
            }
        }
    }

    /// Copy as many bytes as fit from `other`'s unwritten suffix into
    /// `self`'s free capacity, marking them written in `self` and consumed
    /// in `other`. Returns how many bytes moved: the smaller of the two
    /// unwritten lengths.
    pub fn copy_unwritten_from(&mut self, other: &mut PartialBuffer) -> (n: usize)
        requires
            old(self).wf(),
            old(other).wf(),
        ensures
            final(self).wf(),
            final(other).wf(),
            n == if old(self).unwritten_seq().len() <= old(other).unwritten_seq().len() {
                old(self).unwritten_seq().len()
            } else {
                old(other).unwritten_seq().len()
            },
            final(other).buf_seq() == old(other).buf_seq(),
            final(other).spec_written_len() == old(other).spec_written_len() + n,
            final(self).buf_seq().len() == old(self).buf_seq().len(),
            final(self).spec_written_len() == old(self).spec_written_len() + n,
            final(self).written_seq() == old(self).written_seq()
                + old(other).unwritten_seq().take(n as int),
    {
        let out_free = self.buf.len() - self.written;
        let in_avail = other.buf.len() - other.written;
        let n = if out_free <= in_avail { out_free } else { in_avail };
        let mut i: usize = 0;
        while i < n
            invariant
                i <= n,
                self.wf(),
                other.wf(),
                n <= old(self).unwritten_seq().len(),
                n <= old(other).unwritten_seq().len(),
                other.buf_seq() == old(other).buf_seq(),
                other.spec_written_len() == old(other).spec_written_len() + i,
                self.buf_seq().len() == old(self).buf_seq().len(),
                self.spec_written_len() == old(self).spec_written_len() + i,
                self.written_seq() == old(self).written_seq()
                    + old(other).unwritten_seq().take(i as int),
            decreases n - i,
        {
            let b = other.unwritten_at(0);
            self.write_next(b);
            other.advance(1);
            proof {
                assert(old(other).unwritten_seq().take(i + 1)
                    =~= old(other).unwritten_seq().take(i as int)
                        + seq![old(other).unwritten_seq()[i as int]]);
                assert(self.written_seq() =~= old(self).written_seq()
                    + old(other).unwritten_seq().take(i + 1));
            }
            i = i + 1;
        }
        n
    }

    /// Hand out the written prefix and keep only the unwritten remainder,
    /// which becomes a fresh buffer with nothing written.
    pub fn take_written(&mut self) -> (out: Vec<u8>)
        requires
            old(self).wf(),
        ensures
            final(self).wf(),
            final(self).spec_written_len() == 0,
            out@ == old(self).written_seq(),
            final(self).buf_seq() == old(self).unwritten_seq(),
    {
        let mut taken: Vec<u8> = Vec::new();
        core::mem::swap(&mut self.buf, &mut taken);
        let tail = taken.split_off(self.written);
        self.buf = tail;
        self.written = 0;
        taken
    }
}

} // verus!
