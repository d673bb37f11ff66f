//! What the router keeps: the known hosts, forwarding requests, and the open
//! connection to each peer.
use crate::config::data::hosts::Hosts;
use crate::router::connection::FwdConnection;
use crate::primitives::timed_map_new;
use crate::net::message::Message;
use crate::net::state::Channel;
use crate::outbox::Outbox;
use vstd::prelude::*;

verus! {

/// The router's registry.
pub struct Registry {
    pub hosts: Hosts,
    pub fwd_connections: timedmap::TimedMap<u128, FwdConnection>,
    pub connections: ConnectionTable,
}

/// The channel of the open connection to each peer, by the peer's address;
/// each address occurs at most once.
pub struct ConnectionTable {
    entries: Vec<(String, Channel)>,
}

/// Whether no address occurs twice in `s`.
pub open spec fn addresses_unique(s: Seq<(String, Channel)>) -> bool {
    forall|i: int, j: int| 0 <= i < j < s.len() ==> s[i].0@ != s[j].0@
}

/// The map a list of `(address, channel)` entries stands for.
pub open spec fn table_map(s: Seq<(String, Channel)>) -> Map<Seq<char>, Channel> {
    Map::new(
        |a: Seq<char>| exists|i: int| 0 <= i < s.len() && s[i].0@ == a,
        |a: Seq<char>| s[choose|i: int| 0 <= i < s.len() && s[i].0@ == a].1,
    )
}

/// What a map holds under `k`, if anything.
pub open spec fn map_get<K, V>(m: Map<K, V>, k: K) -> Option<V> {
    if m.contains_key(k) {
        Some(m[k])
    } else {
        None
    }
}

proof fn lemma_table_update(s: Seq<(String, Channel)>, i: int, a: String, v: Channel)
    requires
        addresses_unique(s),
        0 <= i < s.len(),
        s[i].0@ == a@,
    ensures
        addresses_unique(s.update(i, (a, v))),
        table_map(s.update(i, (a, v))) == table_map(s).insert(a@, v),
        table_map(s)[a@] == s[i].1,
{
    let ns = s.update(i, (a, v));
    assert(table_map(s).contains_key(a@));
    let j0 = choose|j: int| 0 <= j < s.len() && s[j].0@ == a@;
    assert(j0 == i);
    assert forall|k: Seq<char>| #[trigger] table_map(ns).contains_key(k) == table_map(s).insert(a@, v).contains_key(k) by {
        if k == a@ {
            assert(ns[i].0@ == a@);
        } else {
            if table_map(s).contains_key(k) {
                let j = choose|j: int| 0 <= j < s.len() && s[j].0@ == k;
                assert(ns[j].0@ == k);
            }
            if table_map(ns).contains_key(k) {
                let j = choose|j: int| 0 <= j < ns.len() && ns[j].0@ == k;
                assert(s[j].0@ == k);
            }
        }
    }
    assert forall|k: Seq<char>| #[trigger] table_map(ns).contains_key(k) implies table_map(ns)[k] == table_map(s).insert(a@, v)[k] by {
        let j = choose|j: int| 0 <= j < ns.len() && ns[j].0@ == k;
        if k == a@ {
            assert(j == i);
        } else {
            let j2 = choose|j2: int| 0 <= j2 < s.len() && s[j2].0@ == k;
            assert(ns[j2].0@ == k);
            assert(j == j2);
        }
    }
    assert(table_map(ns) =~= table_map(s).insert(a@, v));
}

proof fn lemma_table_push(s: Seq<(String, Channel)>, a: String, v: Channel)
    requires
        addresses_unique(s),
        forall|k: int| 0 <= k < s.len() ==> s[k].0@ != a@,
    ensures
        addresses_unique(s.push((a, v))),
        table_map(s.push((a, v))) == table_map(s).insert(a@, v),
        !table_map(s).contains_key(a@),
{
    let ns = s.push((a, v));
    assert forall|k: Seq<char>| #[trigger] table_map(ns).contains_key(k) == table_map(s).insert(a@, v).contains_key(k) by {
        if k == a@ {
            assert(ns[s.len() as int].0@ == a@);
        } else {
            if table_map(s).contains_key(k) {
                let j = choose|j: int| 0 <= j < s.len() && s[j].0@ == k;
                assert(ns[j].0@ == k);
            }
            if table_map(ns).contains_key(k) {
                let j = choose|j: int| 0 <= j < ns.len() && ns[j].0@ == k;
                assert(s[j].0@ == k);
            }
        }
    }
    assert forall|k: Seq<char>| #[trigger] table_map(ns).contains_key(k) implies table_map(ns)[k] == table_map(s).insert(a@, v)[k] by {
        let j = choose|j: int| 0 <= j < ns.len() && ns[j].0@ == k;
        if k == a@ {
            assert(j == s.len());
        } else {
            let j2 = choose|j2: int| 0 <= j2 < s.len() && s[j2].0@ == k;
            assert(ns[j2].0@ == k);
            assert(j == j2);
        }
    }
    assert(table_map(ns) =~= table_map(s).insert(a@, v));
}

impl View for ConnectionTable {
    type V = Map<Seq<char>, Channel>;

    closed spec fn view(&self) -> Map<Seq<char>, Channel> {
        table_map(self.entries@)
    }
}

impl ConnectionTable {
    /// The table's invariant: no address occurs twice.
    pub closed spec fn wf(&self) -> bool {
        addresses_unique(self.entries@)
    }

    /// A table with no connection.
    pub fn new() -> (r: Self)
        ensures
            r.wf(),
            r@ == Map::<Seq<char>, Channel>::empty(),
    {
        let r = ConnectionTable { entries: Vec::new() };
        assert(r@ =~= Map::<Seq<char>, Channel>::empty());
        r
    }

    /// Records `channel` as the connection to `origin`; returns the channel
    /// it replaces, if there was one.
    pub fn insert(&mut self, origin: String, channel: Channel) -> (r: Option<Channel>)
        requires
            old(self).wf(),
        ensures
            final(self).wf(),
            final(self)@ == old(self)@.insert(origin@, channel),
            r == map_get(old(self)@, origin@),
    {
        let ghost old_s = self.entries@;
        let mut i: usize = 0;
        while i < self.entries.len()
            invariant
                0 <= i <= self.entries@.len(),
                self.entries@ == old_s,
                old_s == old(self).entries@,
                addresses_unique(old_s),
                forall|k: int| 0 <= k < i ==> old_s[k].0@ != origin@,
            decreases self.entries@.len() - i,
        {
            if self.entries[i].0 == origin {
                proof {
                    lemma_table_update(old_s, i as int, origin, channel);
                }
                let (_, previous) = self.entries.remove(i);
                self.entries.insert(i, (origin, channel));
                assert(self.entries@ =~= old_s.update(i as int, (origin, channel)));
                return Some(previous);
            }
            i = i + 1;
        }
        proof {
            lemma_table_push(old_s, origin, channel);
        }
        self.entries.push((origin, channel));
        None
    }
}

impl Registry {
    /// A registry of the given hosts, with no forwarding request and no
    /// connection.
    pub fn new(hosts: Hosts) -> (r: Self)
        ensures
            r.hosts.0@ == hosts.0@,
            r.connections.wf(),
            r.connections@ == Map::<Seq<char>, Channel>::empty(),
    {
        Registry { hosts, fwd_connections: timed_map_new(), connections: ConnectionTable::new() }
    }

    /// Registers the connection to `origin`. The connection it replaces, if
    /// any, is asked to close: it is handed `close_message()`, whether or not
    /// that could be queued, and is returned as the outbox that records it.
    pub fn add_connection(&mut self, origin: String, channel: Channel) -> (r: Option<Outbox<Message>>)
        requires
            old(self).connections.wf(),
        ensures
            final(self).connections.wf(),
            final(self).connections@ == old(self).connections@.insert(origin@, channel),
            final(self).hosts.0@ == old(self).hosts.0@,
            match map_get(old(self).connections@, origin@) {
                Some(replaced) => r matches Some(o) && o.channel_view() == replaced
                    && o.sent().len() == 1 && o.sent()[0].0 == close_message_spec(),
                None => r is None,
            },
    {
        match self.connections.insert(origin, channel) {
            Some(replaced) => {
                let mut outbox = Outbox::new(replaced);
                let _ = outbox.send(close_message());
                Some(outbox)
            },
            None => None,
        }
    }
}

/// What a connection that is replaced is sent.
pub open spec fn close_message_spec() -> Message {
    Message::End
}

/// What a connection that is replaced is sent: `Message::End`.
pub fn close_message() -> (m: Message)
    ensures
        m == close_message_spec(),
{
    Message::End
}

/// After a connection to an address is registered, the table gives that
/// connection for the address and leaves every other address as it was.
pub proof fn lemma_add_then_lookup(table: Map<Seq<char>, Channel>, origin: Seq<char>, channel: Channel, other: Seq<char>)
    requires
        other != origin,
    ensures
        map_get(table.insert(origin, channel), origin) == Some(channel),
        map_get(table.insert(origin, channel), other) == map_get(table, other),
{
}

/// A connection that is replaced is asked to end: it is handed `End`.
pub proof fn lemma_replaced_connections_end(o: Outbox<Message>)
    requires
        o.sent().len() == 1,
        o.sent()[0].0 == close_message_spec(),
    ensures
        o.sent()[0].0 == Message::End,
{
}

} // verus!
