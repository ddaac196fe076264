//! The channel that carries the sidecar's output to whoever reads it.

use vstd::prelude::*;

verus! {

/// A channel as a mathematical value: the bytes that wait to be read, oldest
/// first, and whether more may still arrive.
pub struct ChannelModel {
    pub pending: Seq<u8>,
    pub open: bool,
}

impl ChannelModel {
    /// The channel that comes with a newly created process.
    pub open spec fn fresh() -> Self {
        ChannelModel { pending: Seq::empty(), open: true }
    }

    /// The channel of a supervisor that has no process yet.
    pub open spec fn unopened() -> Self {
        ChannelModel { pending: Seq::empty(), open: false }
    }

    /// The process wrote `bytes`. A closed channel takes nothing in.
    pub open spec fn write(self, bytes: Seq<u8>) -> Self {
        if self.open {
            ChannelModel { pending: self.pending + bytes, open: true }
        } else {
            self
        }
    }

    /// The channel after a reader took all that was waiting.
    pub open spec fn drained(self) -> Self {
        ChannelModel { pending: Seq::empty(), open: self.open }
    }

    /// The channel after it was closed. What waits can still be read.
    pub open spec fn closed(self) -> Self {
        ChannelModel { pending: self.pending, open: false }
    }
}

/// The readable stream of the sidecar's standard output and standard error.
///
/// The host feeds it what the process wrote, in the order of arrival; a reader
/// takes the bytes out in that same order.
pub struct OutputChannel {
    pending: Vec<u8>,
    open: bool,
}

impl View for OutputChannel {
    type V = ChannelModel;

    closed spec fn view(&self) -> ChannelModel {
        ChannelModel { pending: self.pending@, open: self.open }
    }
}

impl OutputChannel {
    /// An open channel with nothing in it.
    pub fn new() -> (channel: Self)
        ensures
            channel@ == ChannelModel::fresh(),
    {
        OutputChannel { pending: Vec::new(), open: true }
    }

    /// A closed channel with nothing in it.
    pub fn unopened() -> (channel: Self)
        ensures
            channel@ == ChannelModel::unopened(),
    {
        OutputChannel { pending: Vec::new(), open: false }
    }

    /// Whether the channel still takes bytes in.
    pub fn is_open(&self) -> (open: bool)
        ensures
            open == self@.open,
    {
        self.open
    }

    /// How many bytes wait to be read.
    pub fn pending_len(&self) -> (len: usize)
        ensures
            len == self@.pending.len(),
    {
        self.pending.len()
    }

    /// Takes in `bytes` behind what already waits, if the channel is open, and
    /// says whether it did.
    pub fn write(&mut self, bytes: &[u8]) -> (accepted: bool)
        ensures
            final(self)@ == old(self)@.write(bytes@),
            accepted == old(self)@.open,
    {
        if self.open {
            self.pending.extend_from_slice(bytes);
            assert(self.pending@ =~= old(self).pending@ + bytes@);
            true
        } else {
            false
        }
    }

    /// Hands out all bytes that wait, oldest first, and leaves none behind.
    pub fn read(&mut self) -> (bytes: Vec<u8>)
        ensures
            bytes@ == old(self)@.pending,
            final(self)@ == old(self)@.drained(),
    {
        let mut bytes: Vec<u8> = Vec::new();
        std::mem::swap(&mut self.pending, &mut bytes);
        bytes
    }

    /// Closes the channel: from now on it takes nothing in.
    pub fn close(&mut self)
        ensures
            final(self)@ == old(self)@.closed(),
    {
        self.open = false;
    }
}

} // verus!
