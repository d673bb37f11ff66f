//! The open sequences of a connection, by id.
use crate::protocol::packet::OuterPacket;
use crate::sequence::error::SequenceError;
use crate::sequence::server::setup::SetupSequence;
use vstd::prelude::*;
use vstd::set_lib::{lemma_int_range, lemma_len_subset, lemma_map_size, set_int_range};

verus! {

/// The open sequences of a connection; each id is open at most once.
#[derive(Debug)]
pub struct SequenceSplitter {
    sequences: Vec<(u128, SetupSequence)>,
}

/// Whether no id occurs twice in `s`.
pub open spec fn ids_unique(s: Seq<(u128, SetupSequence)>) -> bool {
    forall|i: int, j: int| 0 <= i < j < s.len() ==> s[i].0 != s[j].0
}

/// The map a list of `(id, sequence)` entries stands for.
pub open spec fn entries_map(s: Seq<(u128, SetupSequence)>) -> Map<u128, SetupSequence> {
    Map::new(
        |id: u128| exists|i: int| 0 <= i < s.len() && s[i].0 == id,
        |id: u128| s[choose|i: int| 0 <= i < s.len() && s[i].0 == id].1,
    )
}

/// Replacing the entry of an id that is present inserts into the map.
proof fn lemma_entries_update(s: Seq<(u128, SetupSequence)>, i: int, id: u128, v: SetupSequence)
    requires
        ids_unique(s),
        0 <= i < s.len(),
        s[i].0 == id,
    ensures
        ids_unique(s.update(i, (id, v))),
        entries_map(s.update(i, (id, v))) == entries_map(s).insert(id, v),
{
    let ns = s.update(i, (id, v));
    assert forall|k: u128| #[trigger] entries_map(ns).contains_key(k) == entries_map(s).insert(id, v).contains_key(k) by {
        if k == id {
            assert(ns[i].0 == id);
            assert(s[i].0 == id);
        } else {
            if entries_map(s).contains_key(k) {
                let j = choose|j: int| 0 <= j < s.len() && s[j].0 == k;
                assert(ns[j].0 == k);
            }
            if entries_map(ns).contains_key(k) {
                let j = choose|j: int| 0 <= j < ns.len() && ns[j].0 == k;
                assert(s[j].0 == k);
            }
        }
    }
    assert forall|k: u128| #[trigger] entries_map(ns).contains_key(k) implies entries_map(ns)[k] == entries_map(s).insert(id, v)[k] by {
        let j = choose|j: int| 0 <= j < ns.len() && ns[j].0 == k;
        if k == id {
            assert(j == i);
        } else {
            let j2 = choose|j2: int| 0 <= j2 < s.len() && s[j2].0 == k;
            assert(ns[j2].0 == k);
            assert(j == j2);
        }
    }
    assert(entries_map(ns) =~= entries_map(s).insert(id, v));
}

/// Appending an entry for an absent id inserts into the map.
proof fn lemma_entries_push(s: Seq<(u128, SetupSequence)>, id: u128, v: SetupSequence)
    requires
        ids_unique(s),
        forall|k: int| 0 <= k < s.len() ==> s[k].0 != id,
    ensures
        ids_unique(s.push((id, v))),
        entries_map(s.push((id, v))) == entries_map(s).insert(id, v),
{
    let ns = s.push((id, v));
    assert forall|k: u128| #[trigger] entries_map(ns).contains_key(k) == entries_map(s).insert(id, v).contains_key(k) by {
        if k == id {
            assert(ns[s.len() as int].0 == id);
        } else {
            if entries_map(s).contains_key(k) {
                let j = choose|j: int| 0 <= j < s.len() && s[j].0 == k;
                assert(ns[j].0 == k);
            }
            if entries_map(ns).contains_key(k) {
                let j = choose|j: int| 0 <= j < ns.len() && ns[j].0 == k;
                assert(s[j].0 == k);
            }
        }
    }
    assert forall|k: u128| #[trigger] entries_map(ns).contains_key(k) implies entries_map(ns)[k] == entries_map(s).insert(id, v)[k] by {
        let j = choose|j: int| 0 <= j < ns.len() && ns[j].0 == k;
        if k == id {
            assert(j == s.len());
        } else {
            let j2 = choose|j2: int| 0 <= j2 < s.len() && s[j2].0 == k;
            assert(ns[j2].0 == k);
            assert(j == j2);
        }
    }
    assert(entries_map(ns) =~= entries_map(s).insert(id, v));
}

/// The ids of a list of entries, in order.
pub open spec fn ids_of(s: Seq<(u128, SetupSequence)>) -> Seq<u128> {
    s.map_values(|e: (u128, SetupSequence)| e.0)
}

/// Among the `n + 1` ids `seed ^ 0` to `seed ^ n`, not all are in a list of
/// `n` ids.
proof fn lemma_candidates_not_all_taken(keys: Seq<u128>, seed: u128)
    requires
        keys.len() < 0x1_0000_0000_0000_0000,
    ensures
        exists|k: int| 0 <= k <= keys.len() && !keys.contains(#[trigger] (seed ^ (k as u128))),
{
    if forall|k: int| 0 <= k <= keys.len() ==> keys.contains(#[trigger] (seed ^ (k as u128))) {
        lemma_all_candidates_taken_is_impossible(keys, seed);
    }
}

/// Taking all of the `n + 1` ids `seed ^ 0` to `seed ^ n` needs more than
/// `n` entries.
proof fn lemma_all_candidates_taken_is_impossible(keys: Seq<u128>, seed: u128)
    requires
        keys.len() < 0x1_0000_0000_0000_0000,
        forall|k: int| 0 <= k <= keys.len() ==> keys.contains(#[trigger] (seed ^ (k as u128))),
    ensures
        keys.len() + 1 <= keys.len(),
{
    let n = keys.len() as int;
    let x = set_int_range(0, n + 1);
    let f = |k: int| seed ^ (k as u128);
    lemma_int_range(0, n + 1);
    assert forall|a: int, b: int| x.contains(a) && x.contains(b) && #[trigger] f(a) == #[trigger] f(b) implies a == b by {
        let ua = a as u128;
        let ub = b as u128;
        assert(seed ^ ua == seed ^ ub ==> ua == ub) by (bit_vector);
    }
    let y = x.map(f);
    lemma_map_size(x, y, f);
    assert forall|v: u128| y.contains(v) implies keys.to_set().contains(v) by {
        let k = choose|k: int| x.contains(k) && f(k) == v;
        assert(keys.contains(seed ^ (k as u128)));
    }
    keys.lemma_cardinality_of_set();
    lemma_len_subset(y, keys.to_set());
}

impl View for SequenceSplitter {
    type V = Map<u128, SetupSequence>;

    closed spec fn view(&self) -> Map<u128, SetupSequence> {
        entries_map(self.sequences@)
    }
}

impl SequenceSplitter {
    /// The splitter's invariant: no id occurs twice.
    pub closed spec fn wf(&self) -> bool {
        ids_unique(self.sequences@)
    }

    /// A splitter with no open sequence.
    pub fn new() -> (r: Self)
        ensures
            r.wf(),
            r@ == Map::<u128, SetupSequence>::empty(),
    {
        let r = SequenceSplitter { sequences: Vec::new() };
        assert(r@ =~= Map::<u128, SetupSequence>::empty());
        r
    }

    /// Whether a sequence is open under `id`.
    pub fn contains(&self, id: u128) -> (r: bool)
        ensures
            r == self@.contains_key(id),
    {
        let mut i: usize = 0;
        while i < self.sequences.len()
            invariant
                0 <= i <= self.sequences@.len(),
                forall|k: int| 0 <= k < i ==> self.sequences@[k].0 != id,
            decreases self.sequences@.len() - i,
        {
            if self.sequences[i].0 == id {
                assert(self.sequences@[i as int].0 == id);
                return true;
            }
            i = i + 1;
        }
        false
    }

    /// An id that is not open: `seed` itself when it is not open, and
    /// otherwise the first of `seed ^ 1`, `seed ^ 2`, ... that is not. Only the
    /// low 64 bits can differ from `seed`.
    pub fn fresh_id(&self, seed: u128) -> (r: u128)
        ensures
            !self@.contains_key(r),
            r >> 64u128 == seed >> 64u128,
            !self@.contains_key(seed) ==> r == seed,
    {
        let n = self.sequences.len() as u128;
        let mut k: u128 = 0;
        while k <= n
            invariant
                n == self.sequences@.len(),
                n <= usize::MAX,
                k <= n + 1,
                forall|j: int| 0 <= j < k ==> self@.contains_key(#[trigger] (seed ^ (j as u128))),
                k > 0 ==> self@.contains_key(seed),
            decreases n + 1 - k,
        {
            let candidate = seed ^ k;
            assert(k == 0 ==> candidate == seed) by (bit_vector)
                requires
                    candidate == seed ^ k,
            ;
            if !self.contains(candidate) {
                assert(candidate >> 64u128 == seed >> 64u128) by (bit_vector)
                    requires
                        candidate == seed ^ k,
                        k <= 0xffff_ffff_ffff_ffffu128,
                ;
                return candidate;
            }
            k = k + 1;
        }
        proof {
            let keys = ids_of(self.sequences@);
            lemma_candidates_not_all_taken(keys, seed);
            let j = choose|j: int| 0 <= j <= keys.len() && !keys.contains(#[trigger] (seed ^ (j as u128)));
            assert(self@.contains_key(seed ^ (j as u128)));
            let i = choose|i: int| 0 <= i < self.sequences@.len() && self.sequences@[i].0 == seed ^ (j as u128);
            assert(keys[i] == seed ^ (j as u128));
            assert(keys.contains(seed ^ (j as u128)));
        }
        seed
    }

    /// Routes a packet to its sequence: a packet of a sequence that is not
    /// open is out of order. The sequences themselves keep no further state
    /// here, so routing is all there is to handling.
    pub fn handle_packet(&self, packet: &OuterPacket) -> (r: Result<(), SequenceError>)
        ensures
            r is Ok == self@.contains_key(packet.sequence_view()),
            r is Err ==> r == Err::<(), SequenceError>(SequenceError::PacketOrderError),
    {
        if self.contains(packet.sequence()) {
            Ok(())
        } else {
            Err(SequenceError::PacketOrderError)
        }
    }

    /// Opens `sequence` under `id`, replacing a sequence open under it.
    pub fn insert_sequence(&mut self, id: u128, sequence: SetupSequence)
        requires
            old(self).wf(),
        ensures
            final(self).wf(),
            final(self)@ == old(self)@.insert(id, sequence),
    {
        let ghost old_s = self.sequences@;
        let mut i: usize = 0;
        while i < self.sequences.len()
            invariant
                0 <= i <= self.sequences@.len(),
                self.sequences@ == old_s,
                old_s == old(self).sequences@,
                ids_unique(old_s),
                forall|k: int| 0 <= k < i ==> old_s[k].0 != id,
            decreases self.sequences@.len() - i,
        {
            if self.sequences[i].0 == id {
                self.sequences.set(i, (id, sequence));
                proof {
                    lemma_entries_update(old_s, i as int, id, sequence);
                }
                return;
            }
            i = i + 1;
        }
        self.sequences.push((id, sequence));
        proof {
            lemma_entries_push(old_s, id, sequence);
        }
    }
}

} // verus!
