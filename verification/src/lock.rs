//! The lock and its guards.
//!
//! A [`RwSpinlock`] is a flag word and a cell. A thread gets in by having a
//! [`Transition`] granted on the flag word and then borrowing the value from
//! the cell. The guard it receives holds both and gives both back when it
//! goes out of scope, the borrow first and the flag word after it, so that
//! whoever the flag word lets in next finds the cell free.
//!
//! Reading yields a [`RwSpinlockReadGuard`], which lends the value out
//! immutably and of which many can be alive at once. Writing yields a
//! [`RwSpinlockGuard`], which lends it out mutably and is alive alone.
//!
//! What the contracts can say is limited by what a shared reference to an
//! atomic word lets anyone know: the word may change between any two looks
//! at it. So each acquisition states the [`Grant`] its guard rests on, that
//! is, what the flag word was at the instant the thread was let in and what
//! it became, and the laws in [`crate::ledger`] say what follows from that
//! for every interleaving.
//!
//! Every loop of this library has a measure, so none of its own loops
//! waits for a release without end. A waiting acquisition spins for as long
//! as a [`Backoff`] has patience and then reports that it gave up; `read`
//! and `write` have [`PATIENCE`](crate::backoff::PATIENCE) rounds of it,
//! which no running program spins through. A caller that wants the wait to
//! be endless by construction calls them in a loop of its own. The one loop
//! that is not the library's is the retry inside the atomic update of the
//! standard library, which repeats while other threads change the flag word
//! under it; it waits for no release, but nothing here bounds it.
//!
//! The lock is not fair and not re-entrant. Under steady read traffic a
//! writer can wait without end, and the other way round. A thread that
//! holds a guard and waits for another one that its own guard excludes
//! waits for itself. A panic while a write guard is alive releases the lock
//! like any other exit from the scope, and leaves the value as the
//! interrupted code left it; the lock does not remember the panic.

use vstd::prelude::*;
use std::ops::{Deref, DerefMut};
use std::sync::atomic::{AtomicU32, Ordering};
use std::sync::{RwLock, RwLockReadGuard, RwLockWriteGuard};
use crate::backoff::Backoff;
use crate::cell::{settle, try_exclusive, try_shared};
use crate::ledger::unlocked;
use crate::protocol::{
    decide, next, spec_decide, truthful, Answer, Grant, Transition, WRITE_NUMBER,
};

verus! {

/// The word that a flag was made with.
///
/// This is not the word the flag holds now, which any thread may change at
/// any instant, but the one it was given when it was made, which stays what
/// it was.
pub uninterp spec fn made_with(flag: AtomicU32) -> u32;

/// Makes a flag that holds `word`.
///
/// This is `AtomicU32::new`, which the standard library documents to create
/// an atomic with the value it is given. The contract names that value as
/// what the flag was made with and claims no more.
#[verifier::external_body]
fn fresh_flag(word: u32) -> (flag: AtomicU32)
    ensures
        made_with(flag) == word,
{
    AtomicU32::new(word)
}

/// Applies `transition` to the flag word in one atomic step and reports the
/// answer.
///
/// This is `AtomicU32::fetch_update` with [`next`] as the function it
/// applies. The standard library documents that the call returns
/// `Ok(previous)` when the function returned `Some` for the word it finally
/// replaced, and `Err(previous)` when the function returned `None` for the
/// word it last read. The contract claims that and no more; the answer names
/// the transition that was handed in. The word that comes back depends on
/// what other threads did.
///
/// `fetch_update` panics when the ordering for a failed attempt is `Release`
/// or `AcqRel`, so those are ruled out.
#[verifier::external_body]
fn apply(flag: &AtomicU32, transition: Transition, success: Ordering, failure: Ordering) -> (answer:
    Answer)
    requires
        failure is Relaxed || failure is Acquire || failure is SeqCst,
    ensures
        answer.transition == transition,
        truthful(answer),
    opens_invariants none
    no_unwind
{
    Answer { transition, word: flag.fetch_update(success, failure, |state| next(transition, state)) }
}

/// A granted acquisition that has not been given back yet.
struct Claim<'a> {
    flag: &'a AtomicU32,
    grant: Ghost<Grant>,
}

impl<'a> Claim<'a> {
    /// What the flag word's answer to an acquisition comes to: a claim that
    /// remembers its grant, or nothing when the word refused.
    fn granted(flag: &'a AtomicU32, answer: Answer) -> (claim: Option<Claim<'a>>)
        ensures
            match spec_decide(answer) {
                Some(grant) => claim matches Some(claim) && claim.grant@ == grant && claim.flag
                    == flag,
                None => claim is None,
            },
    {
        match decide(answer) {
            Some(grant) => Some(Claim { flag, grant: Ghost(grant) }),
            None => None,
        }
    }
}

impl Drop for Claim<'_> {
    /// Gives the acquisition back: a write-locked word is reset to unlocked
    /// and a reader count loses one.
    fn drop(&mut self)
        opens_invariants none
        no_unwind
    {
        let _ = apply(self.flag, Transition::Release, Ordering::Release, Ordering::Relaxed);
    }
}

/// A reader/writer lock around a value of type `T` that waits by spinning.
#[verifier::reject_recursive_types(T)]
pub struct RwSpinlock<T> {
    flag: AtomicU32,
    value: RwLock<T>,
}

/// Exclusive access to the value of a [`RwSpinlock`], given back when the
/// guard goes out of scope.
#[verifier::reject_recursive_types(T)]
pub struct RwSpinlockGuard<'a, T> {
    cell: RwLockWriteGuard<'a, T>,
    claim: Claim<'a>,
}

/// Shared access to the value of a [`RwSpinlock`], given back when the guard
/// goes out of scope.
#[verifier::reject_recursive_types(T)]
pub struct RwSpinlockReadGuard<'a, T> {
    cell: RwLockReadGuard<'a, T>,
    claim: Claim<'a>,
}

impl<'a, T> RwSpinlockGuard<'a, T> {
    /// The grant this guard rests on: the flag word at the instant its
    /// thread was let in, and the word that instant left behind.
    pub closed spec fn grant(&self) -> Grant {
        self.claim.grant@
    }

    /// Whether this guard refers to `lock`: its claim is on the flag word of
    /// `lock`, and that is the word it gives the claim back to.
    pub closed spec fn guards(&self, lock: &RwSpinlock<T>) -> bool {
        *self.claim.flag == lock.flag
    }

    /// What the cell's answer comes to for a thread that holds `claim`: a
    /// guard made of the claim and the borrow, or nothing when the cell
    /// lent nothing, in which case the claim is given back.
    fn holding(claim: Claim<'a>, borrow: Option<RwLockWriteGuard<'a, T>>) -> (guard: Option<
        RwSpinlockGuard<'a, T>,
    >)
        ensures
            match borrow {
                Some(borrow) => guard == Some((RwSpinlockGuard { cell: borrow, claim })),
                None => guard is None,
            },
    {
        match borrow {
            Some(cell) => Some(RwSpinlockGuard { cell, claim }),
            None => None,
        }
    }
}

impl<'a, T> RwSpinlockReadGuard<'a, T> {
    /// The grant this guard rests on: the flag word at the instant its
    /// thread was let in, and the word that instant left behind.
    pub closed spec fn grant(&self) -> Grant {
        self.claim.grant@
    }

    /// Whether this guard refers to `lock`: its claim is on the flag word of
    /// `lock`, and that is the word it gives the claim back to.
    pub closed spec fn guards(&self, lock: &RwSpinlock<T>) -> bool {
        *self.claim.flag == lock.flag
    }

    /// What the cell's answer comes to for a thread that holds `claim`: a
    /// guard made of the claim and the borrow, or nothing when the cell
    /// lent nothing, in which case the claim is given back.
    fn holding(claim: Claim<'a>, borrow: Option<RwLockReadGuard<'a, T>>) -> (guard: Option<
        RwSpinlockReadGuard<'a, T>,
    >)
        ensures
            match borrow {
                Some(borrow) => guard == Some((RwSpinlockReadGuard { cell: borrow, claim })),
                None => guard is None,
            },
    {
        match borrow {
            Some(cell) => Some(RwSpinlockReadGuard { cell, claim }),
            None => None,
        }
    }
}

/// The grant of a writer: from the unlocked word to the sentinel.
pub open spec fn write_grant() -> Grant {
    Grant { transition: Transition::AcquireWrite, from: 0, to: WRITE_NUMBER }
}

/// The grants of a reader: from a word below the sentinel to one more.
pub open spec fn read_grant(grant: Grant) -> bool {
    &&& grant.transition is AcquireRead
    &&& grant.from < WRITE_NUMBER
    &&& grant.to == grant.from + 1
}

impl<T> RwSpinlock<T> {
    /// The flag word this lock was made with: what the word was before any
    /// thread asked anything of it.
    pub closed spec fn born_with(&self) -> u32 {
        made_with(self.flag)
    }

    /// An unlocked lock that owns `value`: its flag word starts at zero,
    /// which is the word of [`unlocked`](crate::ledger::unlocked), the
    /// ledger from which the laws of the lock are proved.
    pub fn new(value: T) -> (lock: RwSpinlock<T>)
        ensures
            lock.born_with() == 0,
            lock.born_with() == unlocked().state,
    {
        RwSpinlock { flag: fresh_flag(0), value: RwLock::new(value) }
    }

    /// Makes one attempt to take the lock for writing and does not wait.
    ///
    /// A guard is handed out only if `AcquireWrite` was granted on this
    /// lock's flag word, and that is only from the unlocked word: while any
    /// reader or writer holds the lock the result is `None`. The grant
    /// leaves the sentinel in the word.
    pub fn try_write(&self) -> (guard: Option<RwSpinlockGuard<'_, T>>)
        ensures
            guard matches Some(guard) ==> guard.guards(self) && guard.grant() == write_grant(),
    {
        let answer = apply(
            &self.flag,
            Transition::AcquireWrite,
            Ordering::Acquire,
            Ordering::Relaxed,
        );
        match Claim::granted(&self.flag, answer) {
            Some(claim) => RwSpinlockGuard::holding(claim, settle(try_exclusive(&self.value))),
            None => None,
        }
    }

    /// Makes one attempt to take the lock for reading and does not wait.
    ///
    /// A guard is handed out only if `AcquireRead` was granted on this
    /// lock's flag word, and that is only from a word below the sentinel:
    /// while a writer holds the lock the result is `None`. The grant counts
    /// one more reader in the word; a refused attempt leaves the word as it
    /// was.
    pub fn try_read(&self) -> (guard: Option<RwSpinlockReadGuard<'_, T>>)
        ensures
            guard matches Some(guard) ==> guard.guards(self) && read_grant(guard.grant()),
    {
        let answer = apply(
            &self.flag,
            Transition::AcquireRead,
            Ordering::Acquire,
            Ordering::Relaxed,
        );
        match Claim::granted(&self.flag, answer) {
            Some(claim) => RwSpinlockReadGuard::holding(claim, settle(try_shared(&self.value))),
            None => None,
        }
    }

    /// Takes the lock for writing, spinning until it is let in.
    ///
    /// This is [`write_within`](RwSpinlock::write_within) with a fresh
    /// [`Backoff`], whose patience is
    /// [`PATIENCE`](crate::backoff::PATIENCE): the result is `None` only
    /// after that many rounds of spinning in vain.
    pub fn write(&self) -> (guard: Option<RwSpinlockGuard<'_, T>>)
        ensures
            guard matches Some(guard) ==> guard.guards(self) && guard.grant() == write_grant(),
    {
        let mut backoff = Backoff::new();
        self.write_within(&mut backoff)
    }

    /// Takes the lock for reading, spinning until it is let in.
    ///
    /// This is [`read_within`](RwSpinlock::read_within) with a fresh
    /// [`Backoff`], whose patience is
    /// [`PATIENCE`](crate::backoff::PATIENCE): the result is `None` only
    /// after that many rounds of spinning in vain.
    pub fn read(&self) -> (guard: Option<RwSpinlockReadGuard<'_, T>>)
        ensures
            guard matches Some(guard) ==> guard.guards(self) && read_grant(guard.grant()),
    {
        let mut backoff = Backoff::new();
        self.read_within(&mut backoff)
    }

    /// Takes the lock for writing, spinning for as long as `backoff` has
    /// patience.
    ///
    /// The thread attempts as `try_write` does. After a refused attempt it
    /// spins one round, reads the flag word, and attempts again if the
    /// attempt would be granted from the word it read. It returns a guard
    /// only from a granted attempt, and gives up only when the patience of
    /// `backoff` is used up.
    pub fn write_within(&self, backoff: &mut Backoff) -> (guard: Option<RwSpinlockGuard<'_, T>>)
        ensures
            guard matches Some(guard) ==> guard.guards(self) && guard.grant() == write_grant(),
            guard is None ==> final(backoff).rounds() == final(backoff).patience(),
            final(backoff).patience() == old(backoff).patience(),
            old(backoff).rounds() <= final(backoff).rounds(),
    {
        let mut promising = true;
        loop
            invariant
                backoff.patience() == old(backoff).patience(),
                old(backoff).rounds() <= backoff.rounds(),
            decreases backoff.remaining(),
        {
            if promising {
                match self.try_write() {
                    Some(guard) => {
                        return Some(guard);
                    },
                    None => {},
                }
            }
            if backoff.is_completed() {
                return None;
            }
            backoff.spin();
            promising = next(Transition::AcquireWrite, self.flag.load(Ordering::Relaxed)).is_some();
        }
    }

    /// Takes the lock for reading, spinning for as long as `backoff` has
    /// patience.
    ///
    /// The thread attempts as `try_read` does. After a refused attempt it
    /// spins one round, reads the flag word, and attempts again if the
    /// attempt would be granted from the word it read. It returns a guard
    /// only from a granted attempt, and gives up only when the patience of
    /// `backoff` is used up.
    pub fn read_within(&self, backoff: &mut Backoff) -> (guard: Option<
        RwSpinlockReadGuard<'_, T>,
    >)
        ensures
            guard matches Some(guard) ==> guard.guards(self) && read_grant(guard.grant()),
            guard is None ==> final(backoff).rounds() == final(backoff).patience(),
            final(backoff).patience() == old(backoff).patience(),
            old(backoff).rounds() <= final(backoff).rounds(),
    {
        let mut promising = true;
        loop
            invariant
                backoff.patience() == old(backoff).patience(),
                old(backoff).rounds() <= backoff.rounds(),
            decreases backoff.remaining(),
        {
            if promising {
                match self.try_read() {
                    Some(guard) => {
                        return Some(guard);
                    },
                    None => {},
                }
            }
            if backoff.is_completed() {
                return None;
            }
            backoff.spin();
            promising = next(Transition::AcquireRead, self.flag.load(Ordering::Relaxed)).is_some();
        }
    }
}

impl<T> Deref for RwSpinlockGuard<'_, T> {
    type Target = T;

    /// The protected value.
    fn deref(&self) -> &T {
        self.cell.deref()
    }
}

impl<T> DerefMut for RwSpinlockGuard<'_, T> {
    /// The protected value, for writing. Writing through the guard leaves
    /// its claim on the flag word as it was.
    fn deref_mut(&mut self) -> (value: &mut T)
        ensures
            final(self).grant() == old(self).grant(),
            forall|lock: &RwSpinlock<T>| #[trigger]
                final(self).guards(lock) == old(self).guards(lock),
    {
        self.cell.deref_mut()
    }
}

impl<T> Deref for RwSpinlockReadGuard<'_, T> {
    type Target = T;

    /// The protected value.
    fn deref(&self) -> &T {
        self.cell.deref()
    }
}

} // verus!
