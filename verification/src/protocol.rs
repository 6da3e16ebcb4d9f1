//! The flag word and its transitions.
//!
//! The word has three ranges: `0` means unlocked, `1 .. WRITE_NUMBER` counts
//! the readers that hold the lock, and anything from `WRITE_NUMBER` upwards
//! means that a writer holds it. A thread never stores to the word directly.
//! It asks for one of three [`Transition`]s, and [`next`] decides from the
//! word's current value whether the transition is granted and what the word
//! becomes.
//!
//! The word belongs to all threads at once, so a thread learns what became
//! of its request only from the [`Answer`] of the atomic update that applied
//! it. [`decide`] turns an answer into a [`Grant`] or into nothing.

use vstd::prelude::*;

verus! {

/// The smallest flag word that means "write-locked": two to the thirtieth.
pub const WRITE_NUMBER: u32 = 0x4000_0000;

/// What a flag word says about the lock.
pub enum Access {
    /// Nobody holds the lock.
    Unlocked,
    /// This many readers hold the lock.
    Readers(nat),
    /// A writer holds the lock.
    Writer,
}

/// Reads a flag word.
pub open spec fn access(state: u32) -> Access {
    if state == 0 {
        Access::Unlocked
    } else if state < WRITE_NUMBER {
        Access::Readers(state as nat)
    } else {
        Access::Writer
    }
}

/// A change that a thread asks the flag word to make.
#[derive(Clone, Copy, Debug, PartialEq, Eq)]
pub enum Transition {
    /// Take the lock for one writer.
    AcquireWrite,
    /// Take the lock for one more reader.
    AcquireRead,
    /// Give back what one guard held.
    Release,
}

/// The word that follows `state` when `transition` is granted, and `None`
/// when it is refused.
///
/// * `AcquireWrite` is granted only from the unlocked word and sets the
///   sentinel.
/// * `AcquireRead` is granted from every word below the sentinel and counts
///   one more reader.
/// * `Release` resets a write-locked word to unlocked and takes one reader
///   off a reader count. From the unlocked word there is nothing to give
///   back, so it is refused.
pub open spec fn spec_next(transition: Transition, state: u32) -> Option<u32> {
    match transition {
        Transition::AcquireWrite => if state == 0 {
            Some(WRITE_NUMBER)
        } else {
            None
        },
        Transition::AcquireRead => if state < WRITE_NUMBER {
            Some((state + 1) as u32)
        } else {
            None
        },
        Transition::Release => if state >= WRITE_NUMBER {
            Some(0u32)
        } else if state > 0 {
            Some((state - 1) as u32)
        } else {
            None
        },
    }
}

/// Decides `transition` from the observed flag word.
///
/// This is the single place where the lock's rules are evaluated at run
/// time: the lock applies it to the flag word atomically, and waiting
/// threads apply it to a word they merely read to see whether an attempt is
/// worth making.
#[verifier::when_used_as_spec(spec_next)]
pub fn next(transition: Transition, state: u32) -> (granted: Option<u32>)
    ensures
        granted == spec_next(transition, state),
{
    match transition {
        Transition::AcquireWrite => if state == 0 {
            Some(WRITE_NUMBER)
        } else {
            None
        },
        Transition::AcquireRead => if state < WRITE_NUMBER {
            Some(state + 1)
        } else {
            None
        },
        Transition::Release => if state >= WRITE_NUMBER {
            Some(0)
        } else if state > 0 {
            Some(state - 1)
        } else {
            None
        },
    }
}

/// The transitions say of a flag word exactly what its reading says: a
/// writer gets in only when nobody holds the lock, a reader whenever no
/// writer does, and a release undoes one acquisition.
pub proof fn lemma_next_by_access(state: u32)
    ensures
        spec_next(Transition::AcquireWrite, state) is Some <==> access(state) is Unlocked,
        spec_next(Transition::AcquireRead, state) is Some <==> !(access(state) is Writer),
        spec_next(Transition::Release, state) is Some <==> !(access(state) is Unlocked),
        access(state) is Writer ==> spec_next(Transition::Release, state) == Some(0u32),
        access(state) matches Access::Readers(n) ==> spec_next(Transition::Release, state)
            == Some((n - 1) as u32),
        spec_next(Transition::AcquireWrite, state) matches Some(s) ==> access(s) is Writer,
{
}

/// What the atomic update of the flag word reports to the thread that asked
/// for a transition.
#[derive(Clone, Copy, Debug, PartialEq, Eq)]
pub struct Answer {
    /// The transition that was asked for.
    pub transition: Transition,
    /// `Ok` of the word that was replaced, when a new word was stored; `Err`
    /// of the word that was found, when nothing was stored.
    pub word: Result<u32, u32>,
}

/// A granted transition: what was asked for, the word it was granted from,
/// and the word it left behind.
#[derive(Clone, Copy, Debug, PartialEq, Eq)]
pub struct Grant {
    /// The transition that was granted.
    pub transition: Transition,
    /// The flag word just before.
    pub from: u32,
    /// The flag word just after.
    pub to: u32,
}

/// An answer that the atomic update can give: it stores exactly when [`next`]
/// grants from the word it found.
pub open spec fn truthful(answer: Answer) -> bool {
    match answer.word {
        Ok(previous) => spec_next(answer.transition, previous) is Some,
        Err(previous) => spec_next(answer.transition, previous) is None,
    }
}

/// What an answer comes to. A stored word is a grant from the word it
/// replaced to the word that [`next`] gives; everything else is a refusal.
pub open spec fn spec_decide(answer: Answer) -> Option<Grant> {
    match answer.word {
        Ok(from) => match spec_next(answer.transition, from) {
            Some(to) => Some(Grant { transition: answer.transition, from, to }),
            None => None,
        },
        Err(_) => None,
    }
}

/// Decides from the answer of the flag word whether the thread was let in.
#[verifier::when_used_as_spec(spec_decide)]
pub fn decide(answer: Answer) -> (grant: Option<Grant>)
    ensures
        grant == spec_decide(answer),
{
    match answer.word {
        Ok(from) => match next(answer.transition, from) {
            Some(to) => Some(Grant { transition: answer.transition, from, to }),
            None => None,
        },
        Err(_) => None,
    }
}

/// The word that the atomic update found, whether it replaced it or not.
pub open spec fn found(answer: Answer) -> u32 {
    match answer.word {
        Ok(previous) => previous,
        Err(previous) => previous,
    }
}

/// A truthful answer is a grant exactly when [`next`] grants from the word
/// that was found, and then it records that step of the protocol. So a
/// thread is let in for writing only from the unlocked word, which it
/// leaves at the sentinel, and for reading only from a word below the
/// sentinel, which it leaves one higher; from any other word it is refused.
pub proof fn lemma_decide_by_answer(answer: Answer)
    requires
        truthful(answer),
    ensures
        spec_decide(answer) is Some <==> spec_next(answer.transition, found(answer)) is Some,
        spec_decide(answer) is Some <==> answer.word is Ok,
        spec_decide(answer) matches Some(grant) ==> {
            &&& grant.transition == answer.transition
            &&& grant.from == found(answer)
            &&& spec_next(grant.transition, grant.from) == Some(grant.to)
        },
        answer.transition is AcquireWrite ==> (spec_decide(answer) is Some <==> found(answer)
            == 0),
        answer.transition is AcquireRead ==> (spec_decide(answer) is Some <==> found(answer)
            < WRITE_NUMBER),
        spec_decide(answer) matches Some(grant) ==> (grant.transition is AcquireWrite ==> grant.to
            == WRITE_NUMBER),
        spec_decide(answer) matches Some(grant) ==> (grant.transition is AcquireRead ==> grant.to
            == grant.from + 1),
{
}

} // verus!
