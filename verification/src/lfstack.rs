//! Core of the lock-free LIFO stack.
//!
//! The chain of linked nodes reachable from the head pointer is modelled as
//! a vector whose last element is the top of the stack. Pushing links a new
//! node in front of the old head; popping unlinks the most recently pushed
//! node and moves its value out. The ghost history fields record every value
//! ever pushed and every value ever popped, and the well-formedness
//! invariant states conservation: the multiset of pushed values equals the
//! multiset of popped values plus the multiset of values still linked.

use vstd::prelude::*;

verus! {

/// The head of the stack together with every node still linked from it.
///
/// A value moves caller -> stack on `push` and stack -> caller on `pop`;
/// the stack owns all currently linked values, and they are released when
/// it is dropped.
pub struct StackHead<T> {
    elems: Vec<T>,
    pushed: Ghost<Seq<T>>,
    popped: Ghost<Seq<T>>,
}

impl<T> View for StackHead<T> {
    type V = Seq<T>;

    /// The linked values, bottom first; the last element is the top.
    closed spec fn view(&self) -> Seq<T> {
        self.elems@
    }
}

impl<T> StackHead<T> {
    /// All values pushed so far, in push order.
    pub closed spec fn pushed_values(&self) -> Seq<T> {
        self.pushed@
    }

    /// All values popped so far, in pop order.
    pub closed spec fn popped_values(&self) -> Seq<T> {
        self.popped@
    }

    /// Conservation of values: every push is matched either by a pop or by
    /// a node still linked, and nothing else is ever linked.
    pub closed spec fn wf(&self) -> bool {
        self.pushed@.to_multiset() == self.popped@.to_multiset().add(self.elems@.to_multiset())
    }

    pub fn new() -> (s: StackHead<T>)
        ensures
            s@ == Seq::<T>::empty(),
            s.pushed_values() == Seq::<T>::empty(),
            s.popped_values() == Seq::<T>::empty(),
            s.wf(),
    {
        let s = StackHead::<T> {
            elems: Vec::new(),
            pushed: Ghost(Seq::empty()),
            popped: Ghost(Seq::empty()),
        };
        proof {
            broadcast use vstd::seq_lib::group_to_multiset_ensures;

            assert(s.pushed@.to_multiset() =~= s.popped@.to_multiset().add(
                s.elems@.to_multiset(),
            ));
        }
        s
    }

    /// Link a new node holding `v` in front of the current head.
    pub fn push(&mut self, v: T)
        requires
            old(self).wf(),
        ensures
            final(self).wf(),
            final(self)@ == old(self)@.push(v),
            final(self).pushed_values() == old(self).pushed_values().push(v),
            final(self).popped_values() == old(self).popped_values(),
    {
        proof {
            broadcast use vstd::seq_lib::group_to_multiset_ensures;

            assert(self.pushed@.push(v).to_multiset() =~= self.popped@.to_multiset().add(
                self.elems@.push(v).to_multiset(),
            ));
        }
        self.elems.push(v);
        self.pushed = Ghost(self.pushed@.push(v));
    }

    /// Unlink the head node, if any, and hand its value back.
    ///
    /// Returns the most recently pushed value not yet popped, or `None` on
    /// an empty stack.
    pub fn pop(&mut self) -> (r: Option<T>)
        requires
            old(self).wf(),
        ensures
            final(self).wf(),
            final(self).pushed_values() == old(self).pushed_values(),
            match r {
                Some(v) => {
                    &&& old(self)@.len() > 0
                    &&& v == old(self)@.last()
                    &&& final(self)@ == old(self)@.drop_last()
                    &&& final(self).popped_values() == old(self).popped_values().push(v)
                },
                None => {
                    &&& old(self)@.len() == 0
                    &&& final(self)@ == old(self)@
                    &&& final(self).popped_values() == old(self).popped_values()
                },
            },
    {
        let r = self.elems.pop();
        match r {
            Some(v) => {
                proof {
                    broadcast use vstd::seq_lib::group_to_multiset_ensures;

                    let n = old(self).elems@.len() - 1;
                    assert(old(self).elems@.remove(n) =~= old(self).elems@.drop_last());
                    assert(old(self).elems@.drop_last().to_multiset()
                        == old(self).elems@.to_multiset().remove(v));
                    assert(old(self).elems@.to_multiset().count(v) > 0);
                    assert(self.popped@.push(v).to_multiset().add(
                        self.elems@.to_multiset(),
                    ) =~= old(self).popped@.to_multiset().add(old(self).elems@.to_multiset()));
                }
                self.popped = Ghost(self.popped@.push(v));
                Some(v)
            },
            None => None,
        }
    }

    /// How many values are linked.
    pub fn len(&self) -> (n: usize)
        ensures
            n == self@.len(),
    {
        self.elems.len()
    }

    /// Unlink every remaining node, moving each still-linked value into the
    /// popped history exactly once, top first: the walk that releases a
    /// dropped stack's nodes.
    pub fn drain(&mut self)
        requires
            old(self).wf(),
        ensures
            final(self).wf(),
            final(self)@ == Seq::<T>::empty(),
            final(self).pushed_values() == old(self).pushed_values(),
            final(self).popped_values() == old(self).popped_values() + old(self)@.reverse(),
    {
        proof {
            assert(self@ =~= old(self)@.take(self@.len() as int));
            assert(self.popped_values() =~= old(self).popped_values() + old(self)@.skip(
                self@.len() as int,
            ).reverse());
        }
        while self.len() > 0
            invariant
                self.wf(),
                self.pushed_values() == old(self).pushed_values(),
                self@.len() <= old(self)@.len(),
                self@ == old(self)@.take(self@.len() as int),
                self.popped_values() == old(self).popped_values() + old(self)@.skip(
                    self@.len() as int,
                ).reverse(),
            decreases self@.len(),
        {
            let ghost pre = *self;
            let r = self.pop();
            proof {
                let m = pre@.len() as int;
                assert(m > 0);
                assert(r is Some);
                assert(self@ == pre@.drop_last());
                assert(self@ =~= old(self)@.take(m - 1));
                assert(pre@.last() == old(self)@[m - 1]);
                assert(old(self)@.skip(m - 1) =~= seq![old(self)@[m - 1]] + old(self)@.skip(m));
                assert(old(self)@.skip(m - 1).reverse() =~= old(self)@.skip(m).reverse().push(
                    old(self)@[m - 1],
                ));
                assert(self.popped_values() =~= old(self).popped_values() + old(self)@.skip(
                    m - 1,
                ).reverse());
            }
        }
        proof {
            assert(self@ =~= Seq::<T>::empty());
            assert(old(self)@.skip(0) =~= old(self)@);
        }
    }
}

/// Conservation of stacked values: the multiset of values popped so far
/// equals the multiset of values pushed so far minus what is still linked.
/// Once the stack is empty every pushed value has been popped exactly as
/// often as it was pushed, and conversely, once every push is matched by a
/// pop the stack is empty.
pub proof fn lemma_no_data_loss<T>(s: &StackHead<T>)
    requires
        s.wf(),
    ensures
        s.pushed_values().to_multiset() == s.popped_values().to_multiset().add(s@.to_multiset()),
        s@.len() == 0 ==> s.pushed_values().to_multiset() == s.popped_values().to_multiset(),
        s.pushed_values().len() == s.popped_values().len() ==> s@.len() == 0,
{
    broadcast use vstd::seq_lib::group_to_multiset_ensures;
    broadcast use vstd::multiset::axiom_len_add;

    assert(s.pushed_values().to_multiset().len() == s.pushed_values().len());
    assert(s.popped_values().to_multiset().len() == s.popped_values().len());
    assert(s@.to_multiset().len() == s@.len());
    if s@.len() == 0 {
        assert(s@.to_multiset().len() == 0);
        assert(s.popped_values().to_multiset().add(s@.to_multiset())
            =~= s.popped_values().to_multiset());
    }
}

/// The stack as shared between threads: the head cell is reached through a
/// shared reference by the runtime embedding, which serializes each access
/// into a single atomic load-linked/store-conditional sequence. Verified
/// callers reach the head through `get_mut`, whose exclusive borrow stands
/// for one such atomic sequence.
pub struct LFStack<T> {
    data: StackHead<T>,
}

impl<T> View for LFStack<T> {
    type V = Seq<T>;

    closed spec fn view(&self) -> Seq<T> {
        self.data@
    }
}

impl<T> LFStack<T> {
    pub closed spec fn head(&self) -> StackHead<T> {
        self.data
    }

    pub open spec fn wf(&self) -> bool {
        self.head().wf()
    }

    pub fn new() -> (s: LFStack<T>)
        ensures
            s@ == Seq::<T>::empty(),
            s.wf(),
            s.head().pushed_values() == Seq::<T>::empty(),
            s.head().popped_values() == Seq::<T>::empty(),
    {
        LFStack::<T> { data: StackHead::new() }
    }

    /// Exclusive access to the head of the stack for one operation.
    pub fn get_mut(&mut self) -> (r: &mut StackHead<T>)
        ensures
            *r == old(self).head(),
            final(self).head() == *final(r),
            final(self)@ == final(r)@,
    {
        &mut self.data
    }
}

} // verus!
