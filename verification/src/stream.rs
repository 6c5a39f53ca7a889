//! Live streams to browsers: how many viewers a camera's track has.

use vstd::prelude::*;

verus! {

/// The number of connections bound to a live track. Frames are encoded for
/// the track only while it has at least one.
#[derive(Clone, Copy, Debug)]
pub struct ConnectionCount {
    count: u32,
}

impl View for ConnectionCount {
    type V = nat;

    closed spec fn view(&self) -> nat {
        self.count as nat
    }
}

impl ConnectionCount {
    /// A track with no connection.
    pub fn new() -> (c: ConnectionCount)
        ensures
            c@ == 0,
    {
        ConnectionCount { count: 0 }
    }

    /// The number of connections.
    pub fn count(&self) -> (n: u32)
        ensures
            n == self@,
    {
        self.count
    }

    /// A connection is bound to the track.
    pub fn bind(&mut self)
        requires
            old(self)@ < u32::MAX,
        ensures
            final(self)@ == old(self)@ + 1,
    {
        self.count = self.count + 1;
    }

    /// A connection is unbound from the track.
    pub fn unbind(&mut self)
        requires
            old(self)@ > 0,
        ensures
            final(self)@ == old(self)@ - 1,
    {
        self.count = self.count - 1;
    }

    /// Whether frames are to be encoded for the track: some connection is bound.
    pub fn has_viewers(&self) -> (r: bool)
        ensures
            r == (self@ > 0),
    {
        self.count != 0
    }
}

/// Unbinding a connection undoes binding it.
pub proof fn lemma_unbind_undoes_bind(before: ConnectionCount, bound: ConnectionCount, after: ConnectionCount)
    requires
        bound@ == before@ + 1,
        after@ == bound@ - 1,
    ensures
        after@ == before@,
        bound@ > 0,
{
}

} // verus!
