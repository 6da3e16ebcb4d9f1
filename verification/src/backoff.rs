//! Pacing for a thread that waits on the lock.
//!
//! A waiting thread calls [`Backoff::spin`] between two looks at the flag
//! word. Each call issues a burst of processor spin-wait hints and doubles
//! the burst for the next call, up to [`MAX_PAUSES`], so that the longer a
//! thread has waited the less often it touches the cache line the lock
//! lives in.
//!
//! A `Backoff` also counts its rounds against a patience, and is completed
//! when the patience is used up; that count is the measure of every loop
//! that waits. The patience of [`Backoff::new`] is [`PATIENCE`], the largest
//! `u64`: at one round per nanosecond that is more than five centuries, so
//! a running program does not get there.

use vstd::prelude::*;

verus! {

/// The largest burst of spin-wait hints that one round issues.
pub const MAX_PAUSES: u32 = 64;

/// The patience of a `Backoff` that was not given one: the number of rounds
/// after which it is completed.
pub const PATIENCE: u64 = u64::MAX;

/// The pace of one waiting thread.
pub struct Backoff {
    pauses: u32,
    rounds: u64,
    patience: u64,
}

/// The burst that follows a burst of `pauses` hints: twice as long, capped at
/// `MAX_PAUSES`.
pub open spec fn escalated(pauses: u32) -> u32 {
    if 2 * pauses <= MAX_PAUSES {
        (2 * pauses) as u32
    } else {
        MAX_PAUSES
    }
}

/// The burst of the round that follows `rounds` earlier ones: one hint at
/// first, doubled after each round.
pub open spec fn burst(rounds: nat) -> u32
    decreases rounds,
{
    if rounds == 0 {
        1
    } else {
        escalated(burst((rounds - 1) as nat))
    }
}

/// The spin-wait hint of the processor.
///
/// `std::hint::spin_loop` takes nothing and returns nothing; nothing is
/// claimed of it.
pub assume_specification[ std::hint::spin_loop ]();

impl Backoff {
    #[verifier::type_invariant]
    spec fn well_formed(self) -> bool {
        self.pauses == burst(self.rounds as nat) && self.rounds <= self.patience
    }

    /// How many rounds this `Backoff` has spun.
    pub closed spec fn rounds(self) -> u64 {
        self.rounds
    }

    /// How many rounds this `Backoff` spins before it is completed.
    pub closed spec fn patience(self) -> u64 {
        self.patience
    }

    /// How many rounds are left before this `Backoff` is completed.
    pub open spec fn remaining(self) -> nat {
        (self.patience() - self.rounds()) as nat
    }

    /// A `Backoff` that has not spun yet and has all the patience there is.
    pub fn new() -> (backoff: Backoff)
        ensures
            backoff.rounds() == 0,
            backoff.patience() == PATIENCE,
    {
        Backoff { pauses: 1, rounds: 0, patience: PATIENCE }
    }

    /// A `Backoff` that has not spun yet and is completed after `patience`
    /// rounds.
    pub fn with_patience(patience: u64) -> (backoff: Backoff)
        ensures
            backoff.rounds() == 0,
            backoff.patience() == patience,
    {
        Backoff { pauses: 1, rounds: 0, patience }
    }

    /// The number of spin-wait hints that the next call of `spin` issues.
    pub fn pauses(&self) -> (pauses: u32)
        ensures
            pauses == burst(self.rounds() as nat),
            1 <= pauses <= MAX_PAUSES,
    {
        proof {
            use_type_invariant(self);
            lemma_burst_bounds(self.rounds as nat);
        }
        self.pauses
    }

    /// Whether the patience is used up.
    pub fn is_completed(&self) -> (completed: bool)
        ensures
            completed == (self.rounds() == self.patience()),
            self.rounds() <= self.patience(),
    {
        proof {
            use_type_invariant(self);
        }
        self.rounds == self.patience
    }

    /// Spins one round: issues `pauses()` spin-wait hints, then escalates.
    /// A completed `Backoff` still issues its burst but counts no further.
    pub fn spin(&mut self)
        ensures
            final(self).patience() == old(self).patience(),
            final(self).rounds() == if old(self).rounds() < old(self).patience() {
                (old(self).rounds() + 1) as u64
            } else {
                old(self).rounds()
            },
    {
        let pauses: u32 = self.pauses();
        let mut issued: u32 = 0;
        while issued < pauses
            invariant
                issued <= pauses,
            decreases pauses - issued,
        {
            std::hint::spin_loop();
            issued = issued + 1;
        }
        proof {
            use_type_invariant(&*self);
        }
        if self.rounds < self.patience {
            let escalated: u32 = if pauses <= MAX_PAUSES / 2 {
                2 * pauses
            } else {
                MAX_PAUSES
            };
            *self = Backoff {
                pauses: escalated,
                rounds: self.rounds + 1,
                patience: self.patience,
            };
        }
    }
}

/// A burst is never empty and never longer than `MAX_PAUSES`.
pub proof fn lemma_burst_bounds(rounds: nat)
    ensures
        1 <= burst(rounds) <= MAX_PAUSES,
    decreases rounds,
{
    if rounds > 0 {
        lemma_burst_bounds((rounds - 1) as nat);
    }
}

} // verus!
