//! Core of the writer-preferring readers-writer spin lock.
//!
//! The whole lock lives in one atomic integer `state` plus one atomic
//! generation counter `writer_wake_counter`. The `state` encoding is the
//! design decision that makes the algorithm work:
//!
//! - an even value `2 * r` means `r` active readers and no waiting writer;
//! - an odd value `2 * r + 1` (other than the sentinel) means `r` active
//!   readers and at least one waiting writer;
//! - the sentinel `usize::MAX` means one writer holds the lock exclusively.
//!
//! The generation counter is bumped whenever a waiting writer could make
//! progress (the last reader leaves, or a writer releases); writers sample
//! it before spinning so a wake between their two steps is not lost.
//!
//! Each atomic read-modify-write of the algorithm is one method on the
//! model below, and the branch a spinning thread takes between two atomic
//! instructions is a pure action function. The laws at the bottom state
//! exclusion and writer progress over the encoding.

use vstd::prelude::*;

verus! {

/// A writer holds the lock exclusively.
pub open spec fn writer_held(s: usize) -> bool {
    s == usize::MAX
}

/// At least one writer is queued, waiting for the readers to drain.
pub open spec fn writer_waiting(s: usize) -> bool {
    s % 2 == 1 && s != usize::MAX
}

/// How many readers hold the lock.
pub open spec fn reader_count(s: usize) -> nat {
    if s == usize::MAX {
        0
    } else {
        (s / 2) as nat
    }
}

/// A new reader may enter: no writer holds the lock and none is waiting.
pub open spec fn reader_can_enter(s: usize) -> bool {
    s % 2 == 0
}

/// A writer may take the lock: no readers remain (at most its own waiting
/// flag is still set).
pub open spec fn writer_can_enter(s: usize) -> bool {
    s <= 1
}

/// The state can hold one more reader without reaching the sentinel.
/// `usize::MAX - 1` already stands for more simultaneous readers than a
/// machine can run threads.
pub open spec fn readers_below_limit(s: usize) -> bool {
    s != usize::MAX - 1
}

/// The generation counter after a bump; it wraps around like the atomic
/// fetch-add it models.
pub open spec fn wake_bump(w: usize) -> usize {
    if w == usize::MAX {
        0
    } else {
        (w + 1) as usize
    }
}

/// What a reader does after observing `state` to be `s`.
#[derive(Clone, Copy, PartialEq, Eq, Structural, Debug)]
pub enum ReadAction {
    /// Try to raise the reader count by a compare-exchange from `current`
    /// to `desired` (acquire on success); on failure, decide again on the
    /// value the exchange returned.
    TryEnter { current: usize, desired: usize },
    /// A writer holds the lock or waits for it: spin until `state` differs
    /// from `observed`, then decide again.
    WaitChange { observed: usize },
}

/// What a writer does after observing `state` to be `s`.
#[derive(Clone, Copy, PartialEq, Eq, Structural, Debug)]
pub enum WriteAction {
    /// Try to take the lock by a compare-exchange from `current` to the
    /// sentinel (acquire on success); on failure, decide again.
    TryLock { current: usize },
    /// Announce the wait by a compare-exchange from `current` to `desired`,
    /// setting the lowest bit; on failure, decide again.
    SetWaitBit { current: usize, desired: usize },
    /// Readers still hold the lock: sample the wake counter, re-check
    /// `state`, and spin until the counter moves, then decide again.
    WaitWake,
}

/// The branch a reader takes between two atomic instructions of the
/// acquire loop. New readers enter only while no writer waits, which is
/// what gives writers preference.
pub fn read_acquire_action(s: usize) -> (a: ReadAction)
    requires
        readers_below_limit(s),
    ensures
        reader_can_enter(s) ==> a == (ReadAction::TryEnter {
            current: s,
            desired: (s + 2) as usize,
        }),
        !reader_can_enter(s) ==> a == (ReadAction::WaitChange { observed: s }),
        reader_can_enter(s) ==> {
            let d = (s + 2) as usize;
            &&& !writer_held(s)
            &&& !writer_held(d)
            &&& reader_count(d) == reader_count(s) + 1
            &&& writer_waiting(d) == writer_waiting(s)
        },
{
    if s % 2 == 0 {
        ReadAction::TryEnter { current: s, desired: s + 2 }
    } else {
        ReadAction::WaitChange { observed: s }
    }
}

/// The branch a writer takes between two atomic instructions of the
/// acquire loop.
pub fn write_acquire_action(s: usize) -> (a: WriteAction)
    requires
        readers_below_limit(s),
    ensures
        writer_can_enter(s) ==> a == (WriteAction::TryLock { current: s }),
        writer_can_enter(s) ==> reader_count(s) == 0 && !writer_held(s),
        !writer_can_enter(s) && s % 2 == 0 ==> a == (WriteAction::SetWaitBit {
            current: s,
            desired: (s + 1) as usize,
        }),
        !writer_can_enter(s) && s % 2 == 0 ==> {
            let d = (s + 1) as usize;
            &&& !writer_held(d)
            &&& writer_waiting(d)
            &&& reader_count(d) == reader_count(s)
        },
        !writer_can_enter(s) && s % 2 == 1 ==> a == WriteAction::WaitWake,
{
    if s <= 1 {
        WriteAction::TryLock { current: s }
    } else if s % 2 == 0 {
        WriteAction::SetWaitBit { current: s, desired: s + 1 }
    } else {
        WriteAction::WaitWake
    }
}

/// The readers-writer lock: its two atomic integers and the protected
/// payload.
pub struct RwLock<T> {
    state: usize,
    writer_wake_counter: usize,
    data: T,
}

impl<T> RwLock<T> {
    /// The value of the atomic `state` integer.
    pub closed spec fn lock_state(&self) -> usize {
        self.state
    }

    /// The value of the atomic generation counter.
    pub closed spec fn wake_counter(&self) -> usize {
        self.writer_wake_counter
    }

    /// The protected payload.
    pub closed spec fn payload(&self) -> T {
        self.data
    }

    pub fn new(v: T) -> (l: RwLock<T>)
        ensures
            l.lock_state() == 0,
            l.wake_counter() == 0,
            l.payload() == v,
            reader_count(l.lock_state()) == 0,
            !writer_held(l.lock_state()),
            !writer_waiting(l.lock_state()),
    {
        RwLock::<T> { state: 0, writer_wake_counter: 0, data: v }
    }

    /// One round of reader acquire: the compare-exchange that raises the
    /// reader count by one. It succeeds exactly when no writer holds or
    /// awaits the lock; otherwise the reader must wait for the state to
    /// change and try again.
    pub fn try_read(&mut self) -> (ok: bool)
        requires
            readers_below_limit(old(self).lock_state()),
        ensures
            ok == reader_can_enter(old(self).lock_state()),
            final(self).wake_counter() == old(self).wake_counter(),
            final(self).payload() == old(self).payload(),
            ok ==> {
                &&& final(self).lock_state() == (old(self).lock_state() + 2) as usize
                &&& reader_count(final(self).lock_state()) == reader_count(old(self).lock_state())
                    + 1
                &&& !writer_held(final(self).lock_state())
                &&& writer_waiting(final(self).lock_state()) == writer_waiting(
                    old(self).lock_state(),
                )
            },
            !ok ==> *final(self) == *old(self),
    {
        if self.state % 2 == 0 {
            self.state = self.state + 2;
            true
        } else {
            false
        }
    }

    /// Reader release: the atomic subtraction of 2 from `state`, with the
    /// wake the last reader owes a waiting writer. The counter is bumped
    /// exactly when the prior state was 3: one reader left and the wait
    /// bit set.
    pub fn read_unlock(&mut self)
        requires
            reader_count(old(self).lock_state()) >= 1,
            !writer_held(old(self).lock_state()),
        ensures
            final(self).lock_state() == (old(self).lock_state() - 2) as usize,
            final(self).payload() == old(self).payload(),
            reader_count(final(self).lock_state()) == reader_count(old(self).lock_state()) - 1,
            !writer_held(final(self).lock_state()),
            writer_waiting(final(self).lock_state()) == writer_waiting(old(self).lock_state()),
            (old(self).lock_state() == 3) == (reader_count(old(self).lock_state()) == 1
                && writer_waiting(old(self).lock_state())),
            old(self).lock_state() == 3 ==> final(self).wake_counter() == wake_bump(
                old(self).wake_counter(),
            ),
            old(self).lock_state() != 3 ==> final(self).wake_counter() == old(self).wake_counter(),
    {
        let prev: usize = self.state;
        self.state = self.state - 2;
        if prev == 3 {
            self.bump_wake_counter();
        }
    }

    /// One round of writer acquire: the compare-exchange that swings
    /// `state` to the sentinel. It succeeds exactly when no reader remains
    /// and no writer holds the lock.
    pub fn try_write(&mut self) -> (ok: bool)
        ensures
            ok == writer_can_enter(old(self).lock_state()),
            final(self).wake_counter() == old(self).wake_counter(),
            final(self).payload() == old(self).payload(),
            ok ==> {
                &&& writer_held(final(self).lock_state())
                &&& reader_count(old(self).lock_state()) == 0
                &&& reader_count(final(self).lock_state()) == 0
                &&& !writer_held(old(self).lock_state())
            },
            !ok ==> *final(self) == *old(self),
    {
        if self.state <= 1 {
            self.state = usize::MAX;
            true
        } else {
            false
        }
    }

    /// Announce a waiting writer: the compare-exchange that sets the
    /// lowest bit of `state`, barring new readers from entering. Attempted
    /// when readers hold the lock and the bit is not yet set; in any other
    /// state it changes nothing.
    pub fn set_writer_waiting(&mut self) -> (ok: bool)
        requires
            readers_below_limit(old(self).lock_state()),
        ensures
            ok == (!writer_can_enter(old(self).lock_state()) && old(self).lock_state() % 2 == 0),
            final(self).wake_counter() == old(self).wake_counter(),
            final(self).payload() == old(self).payload(),
            ok ==> {
                &&& final(self).lock_state() == (old(self).lock_state() + 1) as usize
                &&& writer_waiting(final(self).lock_state())
                &&& !writer_held(final(self).lock_state())
                &&& reader_count(final(self).lock_state()) == reader_count(old(self).lock_state())
            },
            !ok ==> *final(self) == *old(self),
    {
        if self.state > 1 && self.state % 2 == 0 {
            self.state = self.state + 1;
            true
        } else {
            false
        }
    }

    /// Writer release: store 0 into `state` and bump the generation
    /// counter, so both queued writers and readers may proceed.
    pub fn write_unlock(&mut self)
        requires
            writer_held(old(self).lock_state()),
        ensures
            final(self).lock_state() == 0,
            final(self).payload() == old(self).payload(),
            reader_count(final(self).lock_state()) == 0,
            !writer_held(final(self).lock_state()),
            !writer_waiting(final(self).lock_state()),
            final(self).wake_counter() == wake_bump(old(self).wake_counter()),
    {
        self.state = 0;
        self.bump_wake_counter();
    }

    /// The wrapping increment of the generation counter, as the atomic
    /// fetch-add performs it.
    fn bump_wake_counter(&mut self)
        ensures
            final(self).wake_counter() == wake_bump(old(self).wake_counter()),
            final(self).lock_state() == old(self).lock_state(),
            final(self).payload() == old(self).payload(),
    {
        if self.writer_wake_counter == usize::MAX {
            self.writer_wake_counter = 0;
        } else {
            self.writer_wake_counter = self.writer_wake_counter + 1;
        }
    }

    /// Read the payload, as a read or write guard does; the caller must
    /// hold the lock in one of the two modes.
    pub fn read_data(&self) -> (r: &T)
        requires
            reader_count(self.lock_state()) >= 1 || writer_held(self.lock_state()),
        ensures
            *r == self.payload(),
    {
        &self.data
    }

    /// Replace the payload, handing the old value back, as a write guard
    /// does; the caller must hold the lock exclusively.
    pub fn replace_data(&mut self, v: T) -> (r: T)
        requires
            writer_held(old(self).lock_state()),
        ensures
            r == old(self).payload(),
            final(self).payload() == v,
            final(self).lock_state() == old(self).lock_state(),
            final(self).wake_counter() == old(self).wake_counter(),
    {
        let mut r = v;
        core::mem::swap(&mut self.data, &mut r);
        r
    }

    /// The current state word, for observation.
    pub fn state_word(&self) -> (s: usize)
        ensures
            s == self.lock_state(),
    {
        self.state
    }

    /// The current generation counter, for sampling before a spin.
    pub fn wake_word(&self) -> (w: usize)
        ensures
            w == self.wake_counter(),
    {
        self.writer_wake_counter
    }
}

/// Reader-writer exclusion over the state encoding: no state carries both
/// an exclusive writer and active readers, a reader enters only while no
/// writer holds the lock, and a writer enters only once no reader remains.
pub proof fn lemma_rw_exclusion(s: usize)
    ensures
        !(writer_held(s) && reader_count(s) > 0),
        reader_can_enter(s) ==> !writer_held(s),
        writer_can_enter(s) ==> reader_count(s) == 0 && !writer_held(s),
{
}

/// A bump never leaves the generation counter where it was, so a writer
/// that sampled the counter before spinning cannot miss a wake.
pub proof fn lemma_wake_bump_moves(w: usize)
    ensures
        wake_bump(w) != w,
{
}

/// Writer progress: once the wait bit is set, no new reader enters, the
/// state counts exactly its remaining readers, each reader release keeps
/// the bit set while lowering the count, and when the count reaches zero
/// the writer's compare-exchange is enabled. A waiting writer therefore
/// gets the lock after at most one round of in-flight readers.
pub proof fn lemma_writer_progress(s: usize)
    requires
        writer_waiting(s),
    ensures
        !reader_can_enter(s),
        s == 2 * reader_count(s) + 1,
        reader_count(s) == 0 ==> writer_can_enter(s),
        reader_count(s) >= 1 ==> writer_waiting((s - 2) as usize) && reader_count((s - 2) as usize)
            == reader_count(s) - 1,
{
}

} // verus!
