//! Core of the MCS queue lock.
//!
//! An MCS lock keeps one atomic tail pointer; each arriving waiter exchanges
//! the address of a caller-owned node into the tail, links itself behind the
//! previous tail, and spins on a flag in its own node until its predecessor
//! hands the lock over. The shared state that those atomic instructions act
//! on is modelled here as the queue of waiter nodes in arrival order: the
//! node at the front is the current holder, the nodes behind it are still
//! waiting. Each transition of the protocol is one method on the model:
//!
//! - `lock` is the atomic exchange into the tail;
//! - `publish` is the waiter's store of its own address into the
//!   predecessor's `next` link (the step a releasing predecessor may have
//!   to wait for);
//! - `try_unlock` is the compare-exchange that clears the tail when no
//!   successor has arrived;
//! - `unlock_handoff` is the store into the successor's flag that lets the
//!   successor enter (the flag convention is: the flag starts "waiting" and
//!   the predecessor's store flips it to "may enter").
//!
//! Two ghost histories record the order in which waiters exchanged their
//! node into the tail and the order in which they became holder; the
//! invariant ties them together, and the fairness law below states that the
//! two orders agree.

use vstd::prelude::*;
use vstd::pervasive::VecAdditionalExecFns;

verus! {

/// A caller-owned waiter record, alive from before its arrival at the lock
/// until after its release. `id` names the waiter; `published` records
/// whether the waiter has already linked itself behind its predecessor
/// (the store a releasing predecessor waits for).
#[derive(Clone, Copy, PartialEq, Eq, Structural)]
pub struct MCSNode {
    pub id: u64,
    pub published: bool,
}

impl MCSNode {
    pub fn new(id: u64) -> (n: MCSNode)
        ensures
            n.id == id,
            !n.published,
    {
        MCSNode { id, published: false }
    }
}

/// No two nodes in the queue stand for the same waiter.
pub open spec fn distinct_ids(q: Seq<MCSNode>) -> bool {
    forall|i: int, j: int| 0 <= i < j < q.len() ==> q[i].id != q[j].id
}

/// The MCS lock: the queue reachable from the tail pointer, the protected
/// payload, and the ghost record of arrivals and lock grants.
pub struct MCSLock<T> {
    queue: Vec<MCSNode>,
    data: T,
    arrivals: Ghost<Seq<u64>>,
    grants: Ghost<Seq<u64>>,
}

impl<T> MCSLock<T> {
    /// The queued nodes, front (current holder) first.
    pub closed spec fn entries(&self) -> Seq<MCSNode> {
        self.queue@
    }

    /// The ids of the queued waiters, front first.
    pub open spec fn queue_ids(&self) -> Seq<u64> {
        self.entries().map_values(|n: MCSNode| n.id)
    }

    /// Every id that ever exchanged its node into the tail, in that order.
    pub closed spec fn arrival_order(&self) -> Seq<u64> {
        self.arrivals@
    }

    /// Every id that ever became holder, in that order.
    pub closed spec fn grant_order(&self) -> Seq<u64> {
        self.grants@
    }

    /// The protected payload.
    pub closed spec fn payload(&self) -> T {
        self.data
    }

    /// The current holder: the waiter at the front of the queue.
    pub open spec fn holder(&self) -> Option<u64> {
        if self.entries().len() > 0 {
            Some(self.entries()[0].id)
        } else {
            None::<u64>
        }
    }

    pub open spec fn is_holder(&self, id: u64) -> bool {
        self.holder() == Some(id)
    }

    /// The ids still waiting behind the holder.
    pub open spec fn waiting_ids(&self) -> Seq<u64> {
        if self.queue_ids().len() > 0 {
            self.queue_ids().drop_first()
        } else {
            self.queue_ids()
        }
    }

    /// The queue invariant: arrivals split into the grants made so far and
    /// the waiters still queued, the current holder is the waiter granted
    /// last, and no waiter is queued twice.
    pub open spec fn wf(&self) -> bool {
        &&& self.arrival_order() == self.grant_order() + self.waiting_ids()
        &&& self.entries().len() > 0 ==> self.grant_order().len() > 0 && self.grant_order().last()
            == self.entries()[0].id
        &&& distinct_ids(self.entries())
    }

    pub fn new(v: T) -> (l: MCSLock<T>)
        ensures
            l.wf(),
            l.holder() == None::<u64>,
            l.queue_ids() == Seq::<u64>::empty(),
            l.arrival_order() == Seq::<u64>::empty(),
            l.grant_order() == Seq::<u64>::empty(),
            l.payload() == v,
    {
        let l = MCSLock::<T> {
            queue: Vec::new(),
            data: v,
            arrivals: Ghost(Seq::empty()),
            grants: Ghost(Seq::empty()),
        };
        proof {
            assert(l.queue_ids() =~= Seq::<u64>::empty());
            assert(l.arrival_order() =~= l.grant_order() + l.waiting_ids());
        }
        l
    }

    /// Exchange the caller's node into the tail.
    ///
    /// The caller's node joins the back of the queue with its `published`
    /// flag cleared. If the previous tail was null the caller becomes the
    /// holder at once; otherwise it must `publish` itself and wait.
    pub fn lock(&mut self, node: MCSNode) -> (became_holder: bool)
        requires
            old(self).wf(),
            !old(self).queue_ids().contains(node.id),
        ensures
            final(self).wf(),
            final(self).queue_ids() == old(self).queue_ids().push(node.id),
            final(self).queue_ids().contains(node.id),
            final(self).arrival_order() == old(self).arrival_order().push(node.id),
            final(self).payload() == old(self).payload(),
            became_holder == (old(self).queue_ids().len() == 0),
            became_holder ==> final(self).grant_order() == old(self).grant_order().push(node.id)
                && final(self).is_holder(node.id),
            !became_holder ==> final(self).grant_order() == old(self).grant_order()
                && final(self).holder() == old(self).holder()
                && !final(self).entries().last().published,
    {
        let was_empty = self.queue.len() == 0;
        self.queue.push(MCSNode { id: node.id, published: false });
        self.arrivals = Ghost(self.arrivals@.push(node.id));
        if was_empty {
            self.grants = Ghost(self.grants@.push(node.id));
        }
        proof {
            assert(self.queue_ids() =~= old(self).queue_ids().push(node.id));
            assert(self.queue_ids().last() == node.id);
            assert forall|i: int|
                0 <= i < old(self).entries().len() implies old(self).entries()[i].id
                != node.id by {
                assert(old(self).queue_ids()[i] == old(self).entries()[i].id);
            }
            if was_empty {
                assert(self.waiting_ids() =~= Seq::<u64>::empty());
                assert(self.arrivals@ =~= self.grants@ + self.waiting_ids());
            } else {
                assert(self.waiting_ids() =~= old(self).waiting_ids().push(node.id));
                assert(self.arrivals@ =~= self.grants@ + self.waiting_ids());
            }
        }
        was_empty
    }

    /// Find the position of the waiter `id` in the queue.
    fn find_index(queue: &Vec<MCSNode>, id: u64) -> (i: usize)
        requires
            exists|j: int| 0 <= j < queue@.len() && queue@[j].id == id,
        ensures
            i < queue@.len(),
            queue@[i as int].id == id,
    {
        let mut i: usize = 0;
        while i < queue.len()
            invariant
                i <= queue@.len(),
                forall|j: int| 0 <= j < i ==> queue@[j].id != id,
                exists|j: int| 0 <= j < queue@.len() && queue@[j].id == id,
            decreases queue@.len() - i,
        {
            if queue[i].id == id {
                return i;
            }
            i = i + 1;
        }
        proof {
            let j = choose|j: int| 0 <= j < queue@.len() && queue@[j].id == id;
            assert(false);
        }
        0
    }

    /// Store the caller's address into its predecessor's `next` link,
    /// making the caller visible to a releasing predecessor. Called by a
    /// waiter that found a previous tail when it arrived; it happens while
    /// the waiter is queued behind the holder, and changes nothing but the
    /// waiter's own `published` flag.
    pub fn publish(&mut self, id: u64)
        requires
            old(self).wf(),
            old(self).queue_ids().contains(id),
            !old(self).is_holder(id),
        ensures
            final(self).wf(),
            final(self).queue_ids() == old(self).queue_ids(),
            final(self).arrival_order() == old(self).arrival_order(),
            final(self).grant_order() == old(self).grant_order(),
            final(self).holder() == old(self).holder(),
            final(self).payload() == old(self).payload(),
            exists|i: int|
                #![auto]
                1 <= i < old(self).entries().len() && old(self).entries()[i].id == id
                    && final(self).entries() == old(self).entries().update(
                    i,
                    (MCSNode { id, published: true }),
                ),
    {
        proof {
            let k = choose|k: int|
                0 <= k < old(self).queue_ids().len() && old(self).queue_ids()[k] == id;
            assert(old(self).entries()[k].id == id);
        }
        let i = Self::find_index(&self.queue, id);
        proof {
            assert(i >= 1) by {
                if i == 0 {
                    assert(old(self).holder() == Some(id));
                }
            }
        }
        self.queue.set(i, MCSNode { id, published: true });
        proof {
            assert(self.queue_ids() =~= old(self).queue_ids());
            assert(self.waiting_ids() =~= old(self).waiting_ids());
        }
    }

    /// Release with no successor linked: the compare-exchange that swings
    /// the tail from the caller's node back to null. It succeeds, and the
    /// lock becomes free, exactly when the caller is still the only queued
    /// node; otherwise a successor has arrived and nothing changes — the
    /// caller must hand off instead.
    pub fn try_unlock(&mut self, id: u64) -> (done: bool)
        requires
            old(self).wf(),
            old(self).is_holder(id),
        ensures
            final(self).wf(),
            done == (old(self).entries().len() == 1),
            final(self).arrival_order() == old(self).arrival_order(),
            final(self).grant_order() == old(self).grant_order(),
            final(self).payload() == old(self).payload(),
            done ==> final(self).queue_ids() == Seq::<u64>::empty() && final(self).holder()
                == None::<u64>,
            !done ==> *final(self) == *old(self),
    {
        if self.queue.len() == 1 {
            let _ = self.queue.pop();
            proof {
                assert(self.queue_ids() =~= Seq::<u64>::empty());
                assert(old(self).waiting_ids() =~= Seq::<u64>::empty());
                assert(self.arrivals@ =~= self.grants@ + self.waiting_ids());
            }
            true
        } else {
            false
        }
    }

    /// Hand the lock to the successor: the store that flips the
    /// successor's flag from "waiting" to "may enter". The successor must
    /// already have published itself — a releasing holder whose tail
    /// compare-exchange failed waits for exactly that before this store.
    pub fn unlock_handoff(&mut self, id: u64)
        requires
            old(self).wf(),
            old(self).is_holder(id),
            old(self).entries().len() >= 2,
            old(self).entries()[1].published,
        ensures
            final(self).wf(),
            final(self).queue_ids() == old(self).queue_ids().drop_first(),
            final(self).arrival_order() == old(self).arrival_order(),
            final(self).grant_order() == old(self).grant_order().push(old(self).entries()[1].id),
            final(self).is_holder(old(self).entries()[1].id),
            final(self).payload() == old(self).payload(),
    {
        let _ = self.queue.remove(0);
        let successor: u64 = self.queue[0].id;
        self.grants = Ghost(self.grants@.push(successor));
        proof {
            assert(self.entries() =~= old(self).entries().drop_first());
            assert(self.queue_ids() =~= old(self).queue_ids().drop_first());
            assert(old(self).waiting_ids() =~= seq![successor] + self.waiting_ids());
            assert(self.arrivals@ =~= self.grants@ + self.waiting_ids());
        }
    }

    /// Release the lock, as a guard going out of scope does: clear the
    /// tail if no successor has arrived, otherwise hand off to the
    /// successor, which by then must have published itself.
    pub fn unlock(&mut self, id: u64)
        requires
            old(self).wf(),
            old(self).is_holder(id),
            old(self).entries().len() >= 2 ==> old(self).entries()[1].published,
        ensures
            final(self).wf(),
            final(self).queue_ids() == old(self).queue_ids().drop_first(),
            final(self).arrival_order() == old(self).arrival_order(),
            final(self).payload() == old(self).payload(),
            old(self).entries().len() >= 2 ==> final(self).grant_order()
                == old(self).grant_order().push(old(self).entries()[1].id)
                && final(self).is_holder(old(self).entries()[1].id),
            old(self).entries().len() == 1 ==> final(self).grant_order() == old(self).grant_order()
                && final(self).holder() == None::<u64>,
    {
        if !self.try_unlock(id) {
            self.unlock_handoff(id);
        }
        proof {
            if old(self).entries().len() == 1 {
                assert(self.queue_ids() =~= old(self).queue_ids().drop_first());
            }
        }
    }

    /// Read the payload. Only the holder may: this is the read access a
    /// guard gives during the critical section.
    pub fn read_data(&self, id: u64) -> (r: &T)
        requires
            self.is_holder(id),
        ensures
            *r == self.payload(),
    {
        &self.data
    }

    /// Replace the payload, handing the old value back. Only the holder
    /// may: this is the write access a guard gives during the critical
    /// section.
    pub fn replace_data(&mut self, id: u64, v: T) -> (r: T)
        requires
            old(self).is_holder(id),
        ensures
            r == old(self).payload(),
            final(self).payload() == v,
            final(self).entries() == old(self).entries(),
            final(self).arrival_order() == old(self).arrival_order(),
            final(self).grant_order() == old(self).grant_order(),
            final(self).wf() == old(self).wf(),
            final(self).holder() == old(self).holder(),
    {
        let mut r = v;
        core::mem::swap(&mut self.data, &mut r);
        r
    }

    /// The current holder, for observation outside the critical section.
    pub fn holder_id(&self) -> (r: Option<u64>)
        ensures
            r == self.holder(),
    {
        if self.queue.len() > 0 {
            Some(self.queue[0].id)
        } else {
            None
        }
    }

    /// How many waiters are queued, the holder included.
    pub fn queue_len(&self) -> (n: usize)
        ensures
            n == self.entries().len(),
    {
        self.queue.len()
    }
}

/// Mutual exclusion: at any instant at most one waiter is the holder, so
/// no two threads ever observe themselves inside the critical section at
/// the same time.
pub proof fn lemma_holder_unique<T>(l: &MCSLock<T>, a: u64, b: u64)
    requires
        l.is_holder(a),
        l.is_holder(b),
    ensures
        a == b,
{
}

/// FIFO fairness: the order in which waiters become holder is exactly the
/// order in which they exchanged their node into the tail.
pub proof fn lemma_fifo<T>(l: &MCSLock<T>)
    requires
        l.wf(),
    ensures
        l.grant_order().len() <= l.arrival_order().len(),
        l.grant_order() == l.arrival_order().take(l.grant_order().len() as int),
{
    assert(l.arrival_order().take(l.grant_order().len() as int) =~= l.grant_order());
}

} // verus!
