//! The registry of live sessions: hands out ids, forgets sessions, and fans
//! a packet out to every live session.

use crate::codec::{encode_packet, ChatPacket};
use vstd::prelude::*;

verus! {

/// Why a session could not be registered.
#[derive(Clone, Copy, Debug, PartialEq, Eq, Structural)]
pub enum RegistryError {
    /// The registry holds as many sessions as it was built for, or has no
    /// unused id left.
    RegistryFull,
}

/// One broadcast: the encoded packet and the ids of the sessions to push it
/// to, in the order they were registered.
pub struct Delivery {
    pub bytes: Vec<u8>,
    pub recipients: Vec<u64>,
}

/// The live sessions, each with the handle through which packets reach it.
pub struct Registry<H> {
    sessions: Vec<(u64, H)>,
    next_id: u64,
    capacity: usize,
    issued: Ghost<Seq<u64>>,
}

/// True when the sequence is strictly increasing.
pub open spec fn increasing(s: Seq<u64>) -> bool {
    forall|i: int, j: int| 0 <= i < j < s.len() ==> s[i] < s[j]
}

impl<H> Registry<H> {
    /// The live sessions, in the order they were registered.
    pub closed spec fn entries(&self) -> Seq<(u64, H)> {
        self.sessions@
    }

    /// The ids of the live sessions, in the order they were registered.
    pub open spec fn ids(&self) -> Seq<u64> {
        self.entries().map_values(|e: (u64, H)| e.0)
    }

    /// The id that the next registration receives.
    pub closed spec fn spec_next_id(&self) -> u64 {
        self.next_id
    }

    /// How many sessions the registry holds at most.
    pub closed spec fn spec_capacity(&self) -> usize {
        self.capacity
    }

    /// Every id handed out so far, in the order it was handed out.
    pub closed spec fn issued(&self) -> Seq<u64> {
        self.issued@
    }

    pub closed spec fn wf(&self) -> bool {
        &&& increasing(self.ids())
        &&& increasing(self.issued@)
        &&& forall|i: int| 0 <= i < self.issued@.len() ==> #[trigger] self.issued@[i] < self.next_id
        &&& forall|i: int|
            0 <= i < self.sessions@.len() ==> self.issued@.contains(#[trigger] self.sessions@[i].0)
        &&& self.sessions@.len() <= self.capacity
        &&& 1 <= self.next_id
    }

    /// True when a registration would be refused.
    pub open spec fn is_full(&self) -> bool {
        self.entries().len() >= self.spec_capacity() || self.spec_next_id() == u64::MAX
    }

    /// True when a session with this id is live.
    pub open spec fn has_id(&self, id: u64) -> bool {
        self.ids().contains(id)
    }

    /// An empty registry that holds at most `capacity` sessions.
    pub fn new(capacity: usize) -> (r: Self)
        ensures
            r.wf(),
            r.entries() == Seq::<(u64, H)>::empty(),
            r.issued() == Seq::<u64>::empty(),
            r.spec_capacity() == capacity,
            r.spec_next_id() == 1,
    {
        Registry { sessions: Vec::new(), next_id: 1, capacity, issued: Ghost(Seq::empty()) }
    }

    /// The number of live sessions.
    pub fn len(&self) -> (r: usize)
        ensures
            r == self.entries().len(),
    {
        self.sessions.len()
    }

    /// Registers a session under a fresh id, or fails with `RegistryFull`.
    pub fn connect(&mut self, handle: H) -> (r: Result<u64, RegistryError>)
        requires
            old(self).wf(),
        ensures
            final(self).wf(),
            old(self).is_full() <==> r is Err,
            r is Err ==> *final(self) == *old(self),
            r is Ok ==> {
                &&& r->Ok_0 == old(self).spec_next_id()
                &&& final(self).spec_next_id() == r->Ok_0 + 1
                &&& final(self).entries() == old(self).entries().push((r->Ok_0, handle))
                &&& final(self).issued() == old(self).issued().push(r->Ok_0)
                &&& final(self).spec_capacity() == old(self).spec_capacity()
            },
    {
        if self.sessions.len() >= self.capacity || self.next_id == u64::MAX {
            return Err(RegistryError::RegistryFull);
        }
        let id = self.next_id;
        let ghost old_ids = self.ids();
        self.sessions.push((id, handle));
        self.next_id = id + 1;
        self.issued = Ghost(self.issued@.push(id));
        assert(self.ids() =~= old_ids.push(id));
        assert(forall|i: int| 0 <= i < old_ids.len() ==> old_ids[i] < id) by {
            assert forall|i: int| 0 <= i < old_ids.len() implies old_ids[i] < id by {
                assert(old(self).issued@.contains(old(self).sessions@[i].0));
            }
        }
        assert(forall|i: int|
            0 <= i < self.sessions@.len() ==> self.issued@.contains(#[trigger] self.sessions@[i].0))
            by {
            assert forall|i: int| 0 <= i < self.sessions@.len() implies self.issued@.contains(
                #[trigger] self.sessions@[i].0,
            ) by {
                if i < old(self).sessions@.len() {
                    let k = choose|k: int|
                        0 <= k < old(self).issued@.len() && old(self).issued@[k]
                            == old(self).sessions@[i].0;
                    assert(self.issued@[k] == self.sessions@[i].0);
                } else {
                    assert(self.issued@[self.issued@.len() - 1] == id);
                }
            }
        }
        Ok(id)
    }

    /// Forgets the session with this id, if it is live; otherwise does
    /// nothing.
    pub fn disconnect(&mut self, id: u64)
        requires
            old(self).wf(),
        ensures
            final(self).wf(),
            disconnected(*old(self), *final(self), id),
    {
        let n = self.sessions.len();
        let mut i: usize = 0;
        while i < n
            invariant
                n == self.sessions@.len(),
                i <= n,
                *self == *old(self),
                old(self).wf(),
                forall|j: int| 0 <= j < i ==> self.sessions@[j].0 != id,
            decreases n - i,
        {
            if self.sessions[i].0 == id {
                let ghost before = self.sessions@;
                let _ = self.sessions.remove(i);
                assert(self.ids() =~= before.map_values(|e: (u64, H)| e.0).remove(i as int));
                assert forall|j: int| 0 <= j < before.len() && j != i implies before[j].0 != id by {
                    let ids = old(self).ids();
                    assert(ids[j] == before[j].0 && ids[i as int] == before[i as int].0);
                    if j < i {
                        assert(ids[j] < ids[i as int]);
                    } else {
                        assert(ids[i as int] < ids[j]);
                    }
                }
                assert forall|e: (u64, H)|
                    self.sessions@.contains(e) <==> (before.contains(e) && e.0 != id) by {
                    if self.sessions@.contains(e) {
                        let k = choose|k: int| 0 <= k < self.sessions@.len() && self.sessions@[k] == e;
                        if k < i {
                            assert(before[k] == e);
                        } else {
                            assert(before[k + 1] == e);
                        }
                    }
                    if before.contains(e) && e.0 != id {
                        let k = choose|k: int| 0 <= k < before.len() && before[k] == e;
                        if k < i {
                            assert(self.sessions@[k] == e);
                        } else {
                            assert(k != i);
                            assert(self.sessions@[k - 1] == e);
                        }
                    }
                }
                assert forall|k: int| 0 <= k < self.sessions@.len() implies self.issued@.contains(
                    #[trigger] self.sessions@[k].0,
                ) by {
                    if k < i {
                        assert(self.sessions@[k] == before[k]);
                    } else {
                        assert(self.sessions@[k] == before[k + 1]);
                    }
                }
                return;
            }
            i = i + 1;
        }
        assert forall|e: (u64, H)| self.sessions@.contains(e) implies e.0 != id by {
            let k = choose|k: int| 0 <= k < self.sessions@.len() && self.sessions@[k] == e;
        }
    }

    /// The handle of the live session with this id.
    pub fn handle(&self, id: u64) -> (r: Option<&H>)
        requires
            self.wf(),
        ensures
            r is Some <==> self.has_id(id),
            r is Some ==> self.entries().contains((id, *r->Some_0)),
    {
        let n = self.sessions.len();
        let mut i: usize = 0;
        while i < n
            invariant
                n == self.sessions@.len(),
                i <= n,
                self.wf(),
                forall|j: int| 0 <= j < i ==> self.sessions@[j].0 != id,
            decreases n - i,
        {
            if self.sessions[i].0 == id {
                assert(self.ids()[i as int] == id);
                assert(self.entries()[i as int] == (id, self.sessions@[i as int].1));
                return Some(&self.sessions[i].1);
            }
            i = i + 1;
        }
        assert(!self.ids().contains(id)) by {
            if self.ids().contains(id) {
                let k = choose|k: int| 0 <= k < self.ids().len() && self.ids()[k] == id;
                assert(self.sessions@[k].0 == id);
            }
        }
        None
    }

    /// Encodes the packet once and names every live session as a recipient,
    /// in the order they were registered. The registry is left as it is.
    pub fn broadcast(&self, packet: &ChatPacket) -> (r: Delivery)
        ensures
            r.bytes@ == encode_packet(packet@),
            r.recipients@ == self.ids(),
    {
        let bytes = packet.serialize();
        let mut recipients: Vec<u64> = Vec::new();
        let n = self.sessions.len();
        let mut i: usize = 0;
        while i < n
            invariant
                n == self.sessions@.len(),
                i <= n,
                recipients@ == self.ids().subrange(0, i as int),
            decreases n - i,
        {
            recipients.push(self.sessions[i].0);
            i = i + 1;
            assert(recipients@ =~= self.ids().subrange(0, i as int));
        }
        assert(recipients@ =~= self.ids());
        Delivery { bytes, recipients }
    }
}

/// `after` is `before` with the session of this id forgotten, if there was one.
pub open spec fn disconnected<H>(before: Registry<H>, after: Registry<H>, id: u64) -> bool {
    &&& after.spec_next_id() == before.spec_next_id()
    &&& after.spec_capacity() == before.spec_capacity()
    &&& after.issued() == before.issued()
    &&& forall|e: (u64, H)| after.entries().contains(e) <==> (before.entries().contains(e) && e.0 != id)
}

/// The ids a registry hands out are pairwise distinct, each is below the next
/// id to be handed out, and every live session holds one of them. Since
/// `connect` appends its id to `issued`, no two registrations ever share an id.
pub proof fn lemma_issued_ids_distinct<H>(r: Registry<H>)
    requires
        r.wf(),
    ensures
        forall|i: int, j: int|
            0 <= i < r.issued().len() && 0 <= j < r.issued().len() && i != j ==> r.issued()[i]
                != r.issued()[j],
        forall|k: int| 0 <= k < r.issued().len() ==> #[trigger] r.issued()[k] < r.spec_next_id(),
        forall|k: int| 0 <= k < r.ids().len() ==> r.issued().contains(#[trigger] r.ids()[k]),
{
    assert forall|i: int, j: int|
        0 <= i < r.issued().len() && 0 <= j < r.issued().len() && i != j implies r.issued()[i]
            != r.issued()[j] by {
        if i < j {
            assert(r.issued()[i] < r.issued()[j]);
        } else {
            assert(r.issued()[j] < r.issued()[i]);
        }
    }
    assert forall|k: int| 0 <= k < r.ids().len() implies r.issued().contains(
        #[trigger] r.ids()[k],
    ) by {
        assert(r.ids()[k] == r.entries()[k].0);
    }
}

/// Once the session with this id is forgotten, no later broadcast names it,
/// and no later registration can be given its id again.
pub proof fn lemma_no_delivery_after_disconnect<H>(before: Registry<H>, after: Registry<H>, id: u64)
    requires
        before.wf(),
        after.wf(),
        disconnected(before, after, id),
    ensures
        !after.ids().contains(id),
        before.has_id(id) ==> after.issued().contains(id) && id < after.spec_next_id(),
{
    if after.ids().contains(id) {
        let k = choose|k: int| 0 <= k < after.ids().len() && after.ids()[k] == id;
        assert(after.entries().contains(after.entries()[k]));
    }
    if before.has_id(id) {
        let k = choose|k: int| 0 <= k < before.ids().len() && before.ids()[k] == id;
        lemma_issued_ids_distinct(before);
        assert(before.issued().contains(before.ids()[k]));
    }
}

/// Recipients come in registration order: of two live sessions, the one
/// registered first (the smaller id) is named first by every broadcast. Since
/// `broadcast` reads the registry without changing it, broadcasts made one
/// after another name the same sessions in the same order.
pub proof fn lemma_fanout_order<H>(r: Registry<H>, a: u64, b: u64)
    requires
        r.wf(),
        r.has_id(a),
        r.has_id(b),
        a < b,
    ensures
        exists|i: int, j: int|
            0 <= i < j < r.ids().len() && r.ids()[i] == a && r.ids()[j] == b,
{
    let i = choose|i: int| 0 <= i < r.ids().len() && r.ids()[i] == a;
    let j = choose|j: int| 0 <= j < r.ids().len() && r.ids()[j] == b;
    if j <= i {
        if j < i {
            assert(r.ids()[j] < r.ids()[i]);
        }
    }
    assert(0 <= i < j < r.ids().len() && r.ids()[i] == a && r.ids()[j] == b);
}

} // verus!
