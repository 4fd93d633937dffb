//! The peers of a mesh, keyed by identifier, and which of them a message
//! from one peer is forwarded to.
use vstd::prelude::*;

use std::collections::BTreeMap;
use vstd::std_specs::btree::increasing_seq;
use vstd::std_specs::cmp::OrdSpec;
use vstd::std_specs::iter::IteratorSpec;

use crate::establishment::ZenohId;

verus! {

broadcast use vstd::std_specs::btree::group_btree_axioms, vstd::laws_cmp::group_laws_cmp;

/// A peer entry: its identifier and the driver of its link.
pub struct MeshEntry<D> {
    pub zid: ZenohId,
    pub driver: D,
}

/// Whether `r` lists the peers of `m` other than `sender` with their entries:
/// each once, in increasing identifier order.
pub open spec fn is_forward_list<E>(m: Map<u128, E>, sender: u128, r: Seq<(u128, E)>) -> bool {
    &&& forall|i: int, j: int| 0 <= i < j < r.len() ==> #[trigger] r[i].0 < #[trigger] r[j].0
    &&& forall|i: int|
        0 <= i < r.len() ==> #[trigger] r[i].0 != sender && m.contains_key(r[i].0) && m[r[i].0]
            == r[i].1
    &&& forall|k: u128|
        #[trigger] m.contains_key(k) && k != sender ==> exists|i: int| 0 <= i < r.len() && r[i].0 == k
}

/// The state of a mesh: its peers, by identifier.
pub struct MeshState<E> {
    peers: BTreeMap<u128, E>,
}

impl<E> View for MeshState<E> {
    type V = Map<u128, E>;

    closed spec fn view(&self) -> Map<u128, E> {
        self.peers@
    }
}

/// The keys an iteration over the mesh yields increase.
proof fn lemma_keys_increasing<E>(s: Seq<(&u128, &E)>)
    requires
        increasing_seq(s.map_values(|kv: (&u128, &E)| *kv.0)),
    ensures
        forall|i: int, j: int| 0 <= i < j < s.len() ==> *s[i].0 < *s[j].0,
{
    let keys = s.map_values(|kv: (&u128, &E)| *kv.0);
    assert forall|i: int, j: int| 0 <= i < j < s.len() implies *s[i].0 < *s[j].0 by {
        assert(keys[i] == *s[i].0);
        assert(keys[j] == *s[j].0);
        assert(keys[i].cmp_spec(&keys[j]) is Less);
    }
}

impl<E> MeshState<E> {
    /// A mesh without peers.
    pub fn new() -> (r: MeshState<E>)
        ensures
            r@ == Map::<u128, E>::empty(),
    {
        MeshState { peers: BTreeMap::new() }
    }

    /// The number of peers.
    pub fn len(&self) -> (r: usize)
        ensures
            r == self@.len(),
    {
        self.peers.len()
    }

    /// Adds peer `zid` with `entry`, replacing the entry it had; returns the
    /// replaced entry, if any.
    pub fn insert(&mut self, zid: ZenohId, entry: E) -> (r: Option<E>)
        ensures
            final(self)@ == old(self)@.insert(zid.id, entry),
            old(self)@.contains_key(zid.id) <==> r is Some,
            r matches Some(e) ==> e == old(self)@[zid.id],
    {
        self.peers.insert(zid.id, entry)
    }

    /// Removes peer `zid`, if present.
    pub fn remove(&mut self, zid: &ZenohId)
        ensures
            final(self)@ == old(self)@.remove(zid.id),
    {
        let _removed = self.peers.remove(&zid.id);
    }

    /// The peers a message from `sender` is forwarded to, with their entries:
    /// every peer but `sender`, each once, in increasing identifier order.
    pub fn forward(&self, sender: ZenohId) -> (r: Vec<(u128, &E)>)
        ensures
            is_forward_list(self@, sender.id, r@.map_values(|p: (u128, &E)| (p.0, *p.1))),
    {
        let ghost m = self@;
        let mut out: Vec<(u128, &E)> = Vec::new();
        let peers = self.peers.iter();
        proof {
            lemma_keys_increasing(peers.remaining());
        }
        for kv in it: peers
            invariant
                m == self@,
                forall|i: int, j: int|
                    0 <= i < j < it.seq().len() ==> *(#[trigger] it.seq()[i]).0 < *(
                    #[trigger] it.seq()[j]).0,
                forall|i: int|
                    0 <= i < it.seq().len() ==> m.contains_key(*(#[trigger] it.seq()[i]).0) && m[*it.seq()[i].0]
                        == *it.seq()[i].1,
                forall|k: u128|
                    #[trigger] m.contains_key(k) ==> exists|i: int|
                        0 <= i < it.seq().len() && *it.seq()[i].0 == k,
                forall|i: int, j: int| 0 <= i < j < out@.len() ==> (#[trigger] out@[i]).0 < (#[trigger] out@[j]).0,
                forall|i: int|
                    0 <= i < out@.len() ==> (#[trigger] out@[i]).0 != sender.id && m.contains_key(out@[i].0)
                        && m[out@[i].0] == *out@[i].1,
                forall|i: int, j: int|
                    0 <= i < out@.len() && it.index() <= j < it.seq().len() ==> (#[trigger] out@[i]).0
                        < *(#[trigger] it.seq()[j]).0,
                forall|j: int|
                    0 <= j < it.index() && *(#[trigger] it.seq()[j]).0 != sender.id ==> exists|i: int|
                        0 <= i < out@.len() && out@[i].0 == *it.seq()[j].0,
        {
            let (k, v) = kv;
            let ghost before = out@;
            if *k != sender.id {
                out.push((*k, v));
                assert(out@[before.len() as int] == (*k, v));
            }
            assert forall|i: int| 0 <= i < before.len() implies out@[i] == before[i] by {}
        }
        let ghost r = out@.map_values(|p: (u128, &E)| (p.0, *p.1));
        assert forall|k: u128| #[trigger] m.contains_key(k) && k != sender.id implies exists|i: int|
            0 <= i < r.len() && r[i].0 == k by {
            let i = choose|i: int| 0 <= i < out@.len() && out@[i].0 == k;
            assert(r[i].0 == k);
        }
        out
    }
}

/// A message is never forwarded back to its sender and reaches every other
/// peer once: a forward list is as long as the set of the other peers.
pub proof fn lemma_forward_list_len<E>(m: Map<u128, E>, sender: u128, r: Seq<(u128, E)>)
    requires
        m.dom().finite(),
        is_forward_list(m, sender, r),
    ensures
        r.len() == m.dom().remove(sender).len(),
{
    let ks = r.map_values(|p: (u128, E)| p.0);
    assert(ks.no_duplicates()) by {
        assert forall|i: int, j: int| 0 <= i < ks.len() && 0 <= j < ks.len() && i != j implies ks[i]
            != ks[j] by {
            if i < j {
                assert(r[i].0 < r[j].0);
            } else {
                assert(r[j].0 < r[i].0);
            }
        }
    }
    assert(ks.to_set() =~= m.dom().remove(sender)) by {
        assert forall|k: u128| ks.to_set().contains(k) implies m.dom().remove(sender).contains(k) by {
            let i = choose|i: int| 0 <= i < ks.len() && ks[i] == k;
            assert(r[i].0 == k);
        }
        assert forall|k: u128| m.dom().remove(sender).contains(k) implies ks.to_set().contains(k) by {
            assert(m.contains_key(k) && k != sender);
            let i = choose|i: int| 0 <= i < r.len() && r[i].0 == k;
            assert(ks[i] == k);
        }
    }
    ks.unique_seq_to_set();
}

/// What forwarding a message does next.
pub enum ForwardStep<E> {
    /// Send to the peer at this position of the list `forward` gave.
    Send(usize),
    /// Stop, with the forward's result.
    Done(Result<(), E>),
}

/// The first step of forwarding to `total` peers: the first of them, or the
/// end with `Ok` when there is none.
pub fn forward_start<E>(total: usize) -> (r: ForwardStep<E>)
    ensures
        total == 0 ==> r == ForwardStep::<E>::Done(Ok(())),
        total > 0 ==> r == ForwardStep::<E>::Send(0),
{
    if total == 0 {
        ForwardStep::Done(Ok(()))
    } else {
        ForwardStep::Send(0)
    }
}

/// The step after the send to the peer at position `index` of `total`: a
/// failed send ends the forward with its error, and no later peer is sent
/// to; a successful one moves on to the next peer, or ends the forward with
/// `Ok` after the last.
pub fn forward_next<E>(index: usize, total: usize, sent: Result<(), E>) -> (r: ForwardStep<E>)
    requires
        index < total,
    ensures
        sent matches Err(e) ==> r == ForwardStep::<E>::Done(Err(e)),
        sent is Ok && index + 1 < total ==> r == ForwardStep::<E>::Send((index + 1) as usize),
        sent is Ok && index + 1 == total ==> r == ForwardStep::<E>::Done(Ok(())),
{
    match sent {
        Err(e) => ForwardStep::Done(Err(e)),
        Ok(()) => if index + 1 < total {
            ForwardStep::Send(index + 1)
        } else {
            ForwardStep::Done(Ok(()))
        },
    }
}

} // verus!
