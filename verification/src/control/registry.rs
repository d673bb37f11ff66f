//! What the controller remembers, each entry for a limited time.
use crate::config::data::Hosts;
use crate::control::state::{Connection, FwdConnection};
use crate::primitives::{timed_map_insert, timed_map_new};
use vstd::prelude::*;

verus! {

/// The controller's registry.
pub struct Registry {
    pub hosts: Hosts,
    pub connections: timedmap::TimedMap<u128, Connection>,
    pub fwd_connections: timedmap::TimedMap<u128, FwdConnection>,
    pub target_integrity: timedmap::TimedMap<u128, String>,
    /// What has been handed to `fwd_connections`.
    pub requests: RequestLog,
}

/// A record, for proofs, of the forwarding requests handed to a timed map.
pub struct RequestLog {
    entries: Ghost<Seq<(u128, FwdConnection, u64)>>,
}

impl RequestLog {
    /// The forwarding requests handed over so far, in order, each with its
    /// key and its lifetime in seconds. Whether an entry is still in the map
    /// depends on the clock.
    pub closed spec fn entries(&self) -> Seq<(u128, FwdConnection, u64)> {
        self.entries@
    }
}

impl Registry {
    /// The forwarding requests handed to `fwd_connections` so far.
    pub open spec fn remembered(&self) -> Seq<(u128, FwdConnection, u64)> {
        self.requests.entries()
    }

    /// A registry of the given hosts with nothing else in it yet.
    pub fn new(hosts: Hosts) -> (r: Self)
        ensures
            r.hosts.0@ == hosts.0@,
            r.remembered() == Seq::<(u128, FwdConnection, u64)>::empty(),
    {
        Registry {
            hosts,
            connections: timed_map_new(),
            fwd_connections: timed_map_new(),
            target_integrity: timed_map_new(),
            requests: RequestLog { entries: Ghost(Seq::empty()) },
        }
    }

    /// Remembers a forwarding request under `key` for `seconds` seconds.
    pub fn remember(&mut self, key: u128, request: FwdConnection, seconds: u64)
        requires
            seconds <= crate::control::LIFETIME,
        ensures
            final(self).remembered() == old(self).remembered().push((key, request, seconds)),
            final(self).hosts == old(self).hosts,
    {
        let ghost entry = (key, request, seconds);
        timed_map_insert(&self.fwd_connections, key, request, seconds);
        self.requests.entries = Ghost(self.requests.entries@.push(entry));
    }
}

} // verus!
