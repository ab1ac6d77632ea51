//! Byte sinks and their model.

use vstd::prelude::*;
use crate::error::ErrorKind;

verus! {

/// The bytes a sink has taken so far, split by how far they have come.
#[verifier::ext_equal]
pub struct SinkState {
    /// What has left the sink for its destination, oldest byte first.
    pub transmitted: Seq<u8>,
    /// What the sink has taken and still holds back, oldest byte first.
    pub pending: Seq<u8>,
    /// Whether the sink has shut. A shut sink refuses every write. A sink
    /// that cannot tell beforehand whether it will take a write is open; its
    /// writes may fail all the same.
    pub closed: bool,
}

impl SinkState {
    /// Everything the sink has taken, in the order in which it was written.
    pub open spec fn stream(self) -> Seq<u8> {
        self.transmitted + self.pending
    }
}

/// From `pre` to `post` the stream has grown by `bytes` at its end, and
/// nothing that had been transmitted was taken back.
pub open spec fn extended(pre: SinkState, bytes: Seq<u8>, post: SinkState) -> bool {
    &&& post.stream() == pre.stream() + bytes
    &&& pre.transmitted.is_prefix_of(post.transmitted)
}

/// A successful write of `bytes`: the sink was open, and the bytes follow all
/// that was written before. How much of the stream the sink transmits on this
/// occasion is its own affair.
pub open spec fn accepted(pre: SinkState, bytes: Seq<u8>, post: SinkState) -> bool {
    &&& !pre.closed
    &&& extended(pre, bytes, post)
}

/// A successful flush: all that was written has been transmitted.
pub open spec fn flushed(pre: SinkState, post: SinkState) -> bool {
    &&& post.transmitted == pre.stream()
    &&& post.pending == Seq::<u8>::empty()
}

/// A failed flush: no byte is lost or reordered, and some of the pending bytes
/// may have been transmitted.
pub open spec fn retained(pre: SinkState, post: SinkState) -> bool {
    extended(pre, Seq::<u8>::empty(), post)
}

/// A destination for bytes that may hold them back until it is flushed.
///
/// The contracts below are what every sink keeps. A sink may promise more of
/// its own two operations, as a vector does, which never fails; the
/// dispatchers pass such promises on to their callers.
pub trait Sink {
    /// What the sink has taken so far.
    spec fn state(&self) -> SinkState;

    /// Writes all of `bytes` or none of them. A refused write leaves no trace,
    /// and a sink that has shut refuses.
    fn write_all(&mut self, bytes: &[u8]) -> (res: Result<(), ErrorKind>)
        ensures
            old(self).state().closed ==> res is Err,
            res is Ok ==> accepted(old(self).state(), bytes@, final(self).state()),
            res is Err ==> final(self).state() == old(self).state(),
    ;

    /// Transmits what the sink holds back. A failed flush loses no byte.
    fn flush(&mut self) -> (res: Result<(), ErrorKind>)
        ensures
            res is Ok ==> flushed(old(self).state(), final(self).state()),
            res is Err ==> retained(old(self).state(), final(self).state()),
    ;
}

/// A vector of bytes is a sink without a buffer: what is written is
/// transmitted at once, and neither operation fails.
impl Sink for Vec<u8> {
    open spec fn state(&self) -> SinkState {
        SinkState { transmitted: self@, pending: Seq::empty(), closed: false }
    }

    fn write_all(&mut self, bytes: &[u8]) -> (res: Result<(), ErrorKind>)
        ensures
            res is Ok,
            final(self)@ == old(self)@ + bytes@,
    {
        self.extend_from_slice(bytes);
        assert(self@ =~= old(self)@ + bytes@);
        Ok(())
    }

    fn flush(&mut self) -> (res: Result<(), ErrorKind>)
        ensures
            res is Ok,
            final(self)@ == old(self)@,
    {
        Ok(())
    }
}

} // verus!
