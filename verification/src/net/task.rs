//! Work a connection carries out on request.
use crate::net::error::ConnectionHandleError;
use crate::net::message::Message;
use crate::primitives::new_uuid_v4;
use crate::protocol::packet::intent::Intent;
use crate::protocol::packet::Packet;
use crate::protocol::state::PacketState;
use crate::sequence::server::setup::SetupSequence;
use vstd::prelude::*;

verus! {

/// A task a connection can be asked to carry out.
#[derive(Clone, Copy, Debug, PartialEq, Eq, Structural)]
pub enum Task {
    /// Open the setup sequence: announce the intent to encrypt and send this
    /// end's public key, both under a fresh sequence id.
    InitConnection,
}

/// Whether `m` is the unencrypted announcement that sequence `id` is a setup
/// sequence: the intent `Encrypt`, naming the sequence again inside.
pub open spec fn is_setup_intent_message(m: Message, id: u128) -> bool {
    m matches Message::SendPacketDirect(p)
        && p.sequence_view() == id
        && p.content_view() == Packet::ServerboundIntent(Intent::Encrypt, id)
}

/// Whether `m` is the unencrypted key exchange packet of sequence `id`,
/// carrying the public value `public`.
pub open spec fn is_setup_key_message(m: Message, id: u128, public: [u8; 32]) -> bool {
    m matches Message::SendPacketDirect(p)
        && p.sequence_view() == id
        && p.content_view() == Packet::ServerboundKeyExchange(public)
}

/// The first message `InitConnection` queues for sequence `id`.
pub fn setup_intent_message(id: u128) -> (m: Message)
    ensures
        is_setup_intent_message(m, id),
{
    Message::SendPacketDirect(Packet::new_server_intent(id, Intent::Encrypt))
}

/// The second message `InitConnection` queues for sequence `id`.
pub fn setup_key_message(id: u128, public: [u8; 32]) -> (m: Message)
    ensures
        is_setup_key_message(m, id, public),
{
    Message::SendPacketDirect(Packet::new_server_key_exchange(id, public))
}

/// Whether `InitConnection` for sequence `id`, with the cipher's public value
/// `public`, handed its channel (`oc` before, `nc` after) the setup messages
/// and came to `r`: the intent first; if it could not be queued, nothing more
/// and an input/output error. Then, without a public value, nothing more and an
/// illegal state; with one, the key packet, and success exactly when it could
/// be queued.
pub open spec fn init_sends(
    id: u128,
    public: Option<[u8; 32]>,
    oc: Seq<(Message, bool)>,
    nc: Seq<(Message, bool)>,
    r: Result<(), ConnectionHandleError>,
) -> bool {
    let intent = nc[oc.len() as int];
    &&& nc.len() > oc.len()
    &&& is_setup_intent_message(intent.0, id)
    &&& if !intent.1 {
        nc == oc.push(intent) && r == Err::<(), ConnectionHandleError>(ConnectionHandleError::IOError)
    } else {
        match public {
            None => nc == oc.push(intent) && r == Err::<(), ConnectionHandleError>(
                ConnectionHandleError::IllegalStateError,
            ),
            Some(pk) => {
                &&& nc == oc.push(intent).push(nc.last())
                &&& is_setup_key_message(nc.last().0, id, pk)
                &&& r == if nc.last().1 {
                    Ok::<(), ConnectionHandleError>(())
                } else {
                    Err::<(), ConnectionHandleError>(ConnectionHandleError::IOError)
                }
            },
        }
    }
}

/// Opening setup sequences under ids that are not open yet: each opening
/// adds exactly one open sequence, and two openings use two different ids, so
/// two calls of `InitConnection` leave two more sequences open.
pub proof fn lemma_setup_sequences_accumulate(open: Map<u128, SetupSequence>, id1: u128, id2: u128)
    requires
        open.dom().finite(),
        !open.contains_key(id1),
        !open.insert(id1, SetupSequence { id: id1 }).contains_key(id2),
    ensures
        id1 != id2,
        open.insert(id1, SetupSequence { id: id1 }).dom().len() == open.dom().len() + 1,
        open.insert(id1, SetupSequence { id: id1 }).insert(id2, SetupSequence { id: id2 }).dom().len()
            == open.dom().len() + 2,
{
    assert(open.insert(id1, SetupSequence { id: id1 }).dom() == open.dom().insert(id1));
    assert(open.insert(id1, SetupSequence { id: id1 }).insert(id2, SetupSequence { id: id2 }).dom()
        == open.dom().insert(id1).insert(id2));
}

impl Task {
    /// Carries out the task. For `InitConnection`: without access to the open
    /// sequences it is an illegal state and nothing is handed to the channel.
    /// Otherwise it opens a setup sequence under a fresh id (a random version 4
    /// UUID; in the unlikely case that it is already open, the first of its
    /// variants that is not), hands the channel
    /// `setup_intent_message(id)` and, if that could be queued and the cipher
    /// has its public value `pk`, `setup_key_message(id, pk)`. The sequence
    /// stays open whatever happens to the messages, and the cipher is not
    /// changed.
    pub fn call(self, state: PacketState) -> (r: Result<(), ConnectionHandleError>)
        requires
            state.handler matches Some(h) ==> h.wf(),
        ensures
            *final(state.encryption) == *old(state.encryption),
            state.handler is None ==> {
                &&& r == Err::<(), ConnectionHandleError>(ConnectionHandleError::IllegalStateError)
                &&& final(state.channel).sent() == old(state.channel).sent()
            },
            state.handler matches Some(h) ==> {
                &&& final(h).wf()
                &&& exists|id: u128|
                    !h@.contains_key(id) && id != 0 && (id >> 76u128) & 0xfu128 == 4u128
                        && final(h)@ == h@.insert(id, SetupSequence { id })
                        && init_sends(id, old(state.encryption).x25_public, old(state.channel).sent(), final(state.channel).sent(), r)
            },
    {
        match self {
            Task::InitConnection => {
                let handler = match state.handler {
                    Some(h) => h,
                    None => {
                        return Err(ConnectionHandleError::IllegalStateError);
                    },
                };
                let seed = new_uuid_v4();
                let id = handler.fresh_id(seed);
                assert(id != 0 && (id >> 76u128) & 0xfu128 == 4u128) by (bit_vector)
                    requires
                        id >> 64u128 == seed >> 64u128,
                        (seed >> 76u128) & 0xfu128 == 4u128,
                ;
                handler.insert_sequence(id, SetupSequence::new_sequence(id));
                let ghost oc = state.channel.sent();
                let public = state.encryption.x25_public;
                let intent = setup_intent_message(id);
                let ghost gi = intent;
                if !state.channel.send(intent) {
                    assert(state.channel.sent()[oc.len() as int] == (gi, false));
                    assert(state.channel.sent() == oc.push(state.channel.sent()[oc.len() as int]));
                    assert(init_sends(id, public, oc, state.channel.sent(), Err(ConnectionHandleError::IOError)));
                    return Err(ConnectionHandleError::IOError);
                }
                assert(state.channel.sent()[oc.len() as int] == (gi, true));
                let pk = match public {
                    Some(pk) => pk,
                    None => {
                        assert(state.channel.sent() == oc.push(state.channel.sent()[oc.len() as int]));
                        assert(init_sends(id, public, oc, state.channel.sent(), Err(ConnectionHandleError::IllegalStateError)));
                        return Err(ConnectionHandleError::IllegalStateError);
                    },
                };
                let ghost mid = state.channel.sent();
                if !state.channel.send(setup_key_message(id, pk)) {
                    assert(mid == oc.push(mid[oc.len() as int]));
                    assert(init_sends(id, public, oc, state.channel.sent(), Err(ConnectionHandleError::IOError)));
                    return Err(ConnectionHandleError::IOError);
                }
                assert(mid == oc.push(mid[oc.len() as int]));
                assert(init_sends(id, public, oc, state.channel.sent(), Ok(())));
                Ok(())
            },
        }
    }
}

} // verus!
