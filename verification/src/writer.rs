//! The chunked write of a file of random bytes, kept as a state machine: how
//! large the next buffer must be, how a partial write advances the count, and
//! when the file is complete. The file itself is written by the caller; every
//! decision of the loop is made here.

use crate::random::random_value_array;
use vstd::prelude::*;

verus! {

/// How many bytes a single write requests at most.
pub const BUFFER_SIZE: usize = 1000000;

/// The state of a chunked write: how many bytes the file is to hold and how
/// many of them have reached it so far.
pub struct ChunkedFill {
    total: usize,
    written: usize,
}

impl ChunkedFill {
    /// Number of bytes the file is to hold.
    pub closed spec fn total(self) -> int {
        self.total as int
    }

    /// Number of bytes written so far.
    pub closed spec fn written(self) -> int {
        self.written as int
    }

    /// No more has been written than was asked for.
    pub open spec fn wf(self) -> bool {
        self.written() <= self.total()
    }

    /// Every requested byte has reached the file.
    pub open spec fn is_done(self) -> bool {
        self.written() == self.total()
    }

    /// Size of the next buffer to write: a full buffer, or what remains of
    /// the file if that is less.
    pub open spec fn spec_next_chunk_len(self) -> int {
        if self.total() - self.written() < BUFFER_SIZE {
            self.total() - self.written()
        } else {
            BUFFER_SIZE as int
        }
    }

    /// Starts a write of `total` bytes, none of them written yet.
    pub fn new(total: usize) -> (s: Self)
        ensures
            s.wf(),
            s.total() == total,
            s.written() == 0,
    {
        ChunkedFill { total, written: 0 }
    }

    /// Number of bytes the file is to hold.
    pub fn total_bytes(&self) -> (r: usize)
        ensures
            r == self.total(),
    {
        self.total
    }

    /// Number of bytes written so far.
    pub fn written_bytes(&self) -> (r: usize)
        ensures
            r == self.written(),
    {
        self.written
    }

    /// Whether the write is complete.
    pub fn done(&self) -> (r: bool)
        requires
            self.wf(),
        ensures
            r == self.is_done(),
    {
        self.written >= self.total
    }

    /// Size of the next buffer to write.
    pub fn next_chunk_len(&self) -> (r: usize)
        requires
            self.wf(),
            !self.is_done(),
        ensures
            r == self.spec_next_chunk_len(),
            0 < r <= self.total() - self.written(),
    {
        let remaining = self.total - self.written;
        if remaining < BUFFER_SIZE {
            remaining
        } else {
            BUFFER_SIZE
        }
    }

    /// The next buffer itself: fresh random bytes, as many as the next write
    /// is to request.
    pub fn fill_chunk(&self) -> (r: Vec<u8>)
        requires
            self.wf(),
            !self.is_done(),
        ensures
            r@.len() == self.spec_next_chunk_len(),
    {
        random_value_array(self.next_chunk_len())
    }

    /// Records that `n` bytes of the last buffer reached the file. A write
    /// may be partial, so `n` may fall short of the buffer's length; it never
    /// exceeds what remains.
    pub fn record_written(&mut self, n: usize)
        requires
            old(self).wf(),
            n <= old(self).total() - old(self).written(),
        ensures
            final(self).wf(),
            final(self).total() == old(self).total(),
            final(self).written() == old(self).written() + n,
    {
        self.written = self.written + n;
    }
}

} // verus!
