//! A byte budget for reading from a stream.

use vstd::prelude::*;

verus! {

/// What to do for one call that asks a limited reader for bytes.
#[derive(Clone, Copy, Debug, PartialEq, Eq, Structural)]
pub enum ReadPlan {
    /// The budget is spent: report the end of the stream and leave the
    /// inner reader alone.
    EndOfStream,
    /// Ask the inner reader for at most this many bytes.
    Read { at_most: usize },
}

/// What to show of the progress after one read.
#[derive(Clone, Copy, Debug, PartialEq, Eq, Structural)]
pub struct Progress {
    /// The number of bytes to move the progress display on by.
    pub advanced: u64,
    /// Whether the budget is spent, so that the display can go.
    pub finished: bool,
}

/// A reader that hands on at most a fixed number of bytes from the reader
/// it wraps. The reading is the caller's; the counting is done here.
#[derive(Clone, Debug, PartialEq, Eq)]
pub struct SizeLimitedReader<R> {
    inner: R,
    remaining_bytes: usize,
    limit: usize,
}

impl<R> SizeLimitedReader<R> {
    /// The reader that the bytes come from.
    pub closed spec fn spec_inner(&self) -> R {
        self.inner
    }

    /// The number of bytes that may still be handed on.
    pub closed spec fn spec_remaining(&self) -> nat {
        self.remaining_bytes as nat
    }

    /// The number of bytes that may be handed on in all.
    pub closed spec fn spec_limit(&self) -> nat {
        self.limit as nat
    }

    /// No more is left than there was to begin with.
    pub open spec fn wf(&self) -> bool {
        self.spec_remaining() <= self.spec_limit()
    }

    /// The number of bytes handed on so far.
    pub open spec fn spec_consumed(&self) -> int {
        self.spec_limit() - self.spec_remaining()
    }

    /// A reader that hands on at most `size` bytes of `inner`.
    pub fn new(inner: R, size: usize) -> (reader: SizeLimitedReader<R>)
        ensures
            reader.spec_inner() == inner,
            reader.spec_remaining() == size,
            reader.spec_limit() == size,
            reader.wf(),
    {
        SizeLimitedReader { inner, remaining_bytes: size, limit: size }
    }

    /// The reader that the bytes come from, to read from.
    pub fn inner_mut(&mut self) -> (inner: &mut R)
        ensures
            *inner == old(self).spec_inner(),
            final(self).spec_inner() == *final(inner),
            final(self).spec_remaining() == old(self).spec_remaining(),
            final(self).spec_limit() == old(self).spec_limit(),
    {
        &mut self.inner
    }

    /// The reader that the bytes come from, handed back.
    pub fn into_inner(self) -> (inner: R)
        ensures
            inner == self.spec_inner(),
    {
        self.inner
    }

    /// The number of bytes that may still be handed on.
    pub fn remaining_bytes(&self) -> (n: usize)
        ensures
            n == self.spec_remaining(),
    {
        self.remaining_bytes
    }

    /// The number of bytes that may be handed on in all, which is the
    /// length of the progress display.
    pub fn limit(&self) -> (n: usize)
        ensures
            n == self.spec_limit(),
    {
        self.limit
    }

    /// What to do for a call with a buffer of `buffer_len` bytes: nothing
    /// once the budget is spent, and else a read of as many bytes as the
    /// buffer holds and the budget allows.
    pub fn plan(&self, buffer_len: usize) -> (plan: ReadPlan)
        ensures
            plan == if self.spec_remaining() == 0 {
                ReadPlan::EndOfStream
            } else {
                ReadPlan::Read {
                    at_most: if buffer_len <= self.spec_remaining() {
                        buffer_len
                    } else {
                        self.spec_remaining() as usize
                    },
                }
            },
    {
        if self.remaining_bytes == 0 {
            ReadPlan::EndOfStream
        } else if buffer_len <= self.remaining_bytes {
            ReadPlan::Read { at_most: buffer_len }
        } else {
            ReadPlan::Read { at_most: self.remaining_bytes }
        }
    }

    /// Takes `bytes_read` bytes off the budget, after the inner reader has
    /// delivered that many, and says what to show of it.
    pub fn record(&mut self, bytes_read: usize) -> (progress: Progress)
        requires
            bytes_read <= old(self).spec_remaining(),
        ensures
            final(self).spec_inner() == old(self).spec_inner(),
            final(self).spec_limit() == old(self).spec_limit(),
            final(self).spec_remaining() == old(self).spec_remaining() - bytes_read,
            progress.advanced == bytes_read,
            progress.finished == (final(self).spec_remaining() == 0),
    {
        self.remaining_bytes = self.remaining_bytes - bytes_read;
        Progress { advanced: bytes_read as u64, finished: self.remaining_bytes == 0 }
    }
}

/// However a read goes, the reader never hands on more than its limit: a
/// read is planned for no more than is left, and what it delivers within
/// that plan leaves the count of bytes handed on at or under the limit.
pub proof fn lemma_limit_is_kept<R>(
    before: SizeLimitedReader<R>,
    after: SizeLimitedReader<R>,
    at_most: usize,
    bytes_read: usize,
)
    requires
        before.wf(),
        at_most <= before.spec_remaining(),
        bytes_read <= at_most,
        after.spec_limit() == before.spec_limit(),
        after.spec_remaining() == before.spec_remaining() - bytes_read,
    ensures
        after.wf(),
        after.spec_consumed() == before.spec_consumed() + bytes_read,
        0 <= after.spec_consumed() <= after.spec_limit(),
{
}

} // verus!
