//! The node-wide controller: its commands, its registry and what it does with
//! data to forward.
pub mod registry;
pub mod state;

use crate::control::registry::Registry;
use crate::control::state::{Command, FwdConnection};
use crate::net::packet::Packet;
use crate::net::state::Message;
use crate::primitives::new_uuid_v4;
use vstd::prelude::*;

verus! {

/// How long a forwarding request is remembered, in seconds.
pub const LIFETIME: u64 = 10 * 60;

/// Whether `m` forwards `data` of sequence `id`: the data packet, to be sent
/// encrypted.
pub open spec fn is_forward_message(m: Message, id: u128, data: Seq<u8>) -> bool {
    m matches Message::SendPacket(Packet::ServerboundFwdDataPacket(i, d)) && i == id && d@ == data
}

/// The message that forwards `data` of sequence `id` to a host.
pub fn forward_message(id: u128, data: &Vec<u8>) -> (m: Message)
    ensures
        is_forward_message(m, id, data@),
{
    let copy = data.clone();
    assert(copy@ =~= data@);
    Message::SendPacket(Packet::ServerboundFwdDataPacket(id, copy))
}

/// Whether `sends` forwards `data` of sequence `id` to `hosts`: the
/// forwarding message once to each host, in the hosts' order.
pub open spec fn is_forwarding(sends: Seq<(String, Message)>, hosts: Seq<String>, id: u128, data: Seq<u8>) -> bool {
    &&& sends.len() == hosts.len()
    &&& forall|i: int| 0 <= i < sends.len() ==> #[trigger] sends[i].0@ == hosts[i]@
    &&& forall|i: int| 0 <= i < sends.len() ==> is_forward_message(#[trigger] sends[i].1, id, data)
}

/// Handles a command: data to forward that arrived from `origin` under
/// sequence `id` is remembered, as coming from `origin` under `id`, under a
/// fresh request id for `LIFETIME` seconds, and goes to every known host.
/// Returns each host with the message to send it, in the hosts' order.
pub fn handle_command(registry: &mut Registry, command: Command) -> (r: Vec<(String, Message)>)
    ensures
        final(registry).hosts == old(registry).hosts,
        match command {
            Command::ForwardData { origin, id, data } => {
                &&& is_forwarding(r@, old(registry).hosts.0@, id, data@)
                &&& final(registry).remembered().len() == old(registry).remembered().len() + 1
                &&& final(registry).remembered() == old(registry).remembered().push(final(registry).remembered().last())
                &&& final(registry).remembered().last().1 == (FwdConnection { origin, origin_id: id })
                &&& final(registry).remembered().last().2 == LIFETIME
            },
        },
{
    match command {
        Command::ForwardData { origin, id, data } => {
            let key = new_uuid_v4();
            registry.remember(key, FwdConnection { origin, origin_id: id }, LIFETIME);
            let hosts = &registry.hosts.0;
            let mut sends: Vec<(String, Message)> = Vec::new();
            let mut i: usize = 0;
            while i < hosts.len()
                invariant
                    0 <= i <= hosts@.len(),
                    sends@.len() == i,
                    forall|k: int| 0 <= k < i ==> #[trigger] sends@[k].0@ == hosts@[k]@,
                    forall|k: int| 0 <= k < i ==> is_forward_message(#[trigger] sends@[k].1, id, data@),
                decreases hosts@.len() - i,
            {
                let target = hosts[i].clone();
                sends.push((target, forward_message(id, &data)));
                i = i + 1;
            }
            sends
        },
    }
}

/// Forwarding sends every known host, in order, the data packet with the
/// request's sequence id and data, to go out encrypted.
pub proof fn lemma_forwarding_reaches_every_host(sends: Seq<(String, Message)>, hosts: Seq<String>, id: u128, data: Seq<u8>, i: int)
    requires
        is_forwarding(sends, hosts, id, data),
        0 <= i < hosts.len(),
    ensures
        sends.len() == hosts.len(),
        sends[i].0@ == hosts[i]@,
        sends[i].1 matches Message::SendPacket(Packet::ServerboundFwdDataPacket(j, d)) && j == id && d@ == data,
{
    assert(is_forward_message(sends[i].1, id, data));
}

} // verus!
