//! The sending half of a channel, with a record, for proofs, of every value
//! handed to it.
use crate::primitives::channel_send;
use vstd::prelude::*;

verus! {

/// The sending half of an unbounded channel. Alongside the channel it keeps
/// the sequence of values handed to it, in order, each with whether it could
/// be queued; only `send` adds to it.
#[verifier::reject_recursive_types(T)]
pub struct Outbox<T> {
    channel: tokio::sync::mpsc::UnboundedSender<T>,
    sent: Ghost<Seq<(T, bool)>>,
}

/// Whether `n` is `o` with `m` handed over once more, queued or not.
pub open spec fn handed<T>(o: Seq<(T, bool)>, n: Seq<(T, bool)>, m: T) -> bool {
    n.len() == o.len() + 1 && n == o.push((m, n.last().1))
}

impl<T> Outbox<T> {
    /// The values handed to the channel so far, in order, each with whether
    /// it could be queued.
    pub closed spec fn sent(&self) -> Seq<(T, bool)> {
        self.sent@
    }

    /// The channel the values go to.
    pub closed spec fn channel_view(&self) -> tokio::sync::mpsc::UnboundedSender<T> {
        self.channel
    }

    /// An outbox on `channel` to which nothing has been handed yet.
    pub fn new(channel: tokio::sync::mpsc::UnboundedSender<T>) -> (r: Self)
        ensures
            r.sent() == Seq::<(T, bool)>::empty(),
            r.channel_view() == channel,
    {
        Outbox { channel, sent: Ghost(Seq::empty()) }
    }

    /// The channel the values go to.
    pub fn channel(&self) -> (r: &tokio::sync::mpsc::UnboundedSender<T>)
        ensures
            *r == self.channel_view(),
    {
        &self.channel
    }

    /// Hands `msg` to the channel; returns whether it could be queued, which
    /// depends on whether the receiving half is still open.
    pub fn send(&mut self, msg: T) -> (r: bool)
        ensures
            final(self).sent() == old(self).sent().push((msg, r)),
            final(self).channel_view() == old(self).channel_view(),
    {
        let ghost m = msg;
        let queued = channel_send(&self.channel, msg).is_ok();
        self.sent = Ghost(self.sent@.push((m, queued)));
        queued
    }
}

} // verus!
