//! The flag word read against the guards that are alive.
//!
//! A [`Ledger`] pairs a flag word with the number of read guards and write
//! guards that are alive. An [`Event`] is something a thread does to the
//! lock, and [`after`] says what the ledger becomes. A waiting acquisition
//! is a run of attempts of which none but the last can be granted, and a
//! refused attempt changes nothing, so attempts are the only acquisitions
//! the ledger needs to know about. An attempt that is granted on the flag
//! word and then finds the cell busy gives its claim back at once; to the
//! ledger that is a granted attempt followed by the drop of its guard.
//!
//! The laws below are laws of the ledger. They hold for every run of
//! events: the flag word tells the truth about the guards, readers share
//! the lock, a writer has it alone, and a lock with no guard left is free.
//! They bear on the lock through the grants that its guards rest on: every
//! guard comes from an attempt that [`next`](crate::protocol::next)
//! granted, and gives back with a `Release` that `next` decided.

use vstd::prelude::*;
use crate::protocol::{
    found, spec_decide, spec_next, truthful, Answer, Grant, Transition, WRITE_NUMBER,
};

verus! {

/// A flag word and the guards that are alive.
pub struct Ledger {
    /// The flag word.
    pub state: u32,
    /// How many read guards are alive.
    pub readers: nat,
    /// How many write guards are alive.
    pub writers: nat,
}

/// Something a thread does to the lock.
pub enum Event {
    /// One attempt to take the lock for writing.
    TryWrite,
    /// One attempt to take the lock for reading.
    TryRead,
    /// A write guard goes out of scope.
    DropWrite,
    /// A read guard goes out of scope.
    DropRead,
}

/// The ledger of a lock that was just made.
pub open spec fn unlocked() -> Ledger {
    Ledger { state: 0, readers: 0, writers: 0 }
}

/// The flag word after a guard has asked for `Release`.
pub open spec fn released(state: u32) -> u32 {
    match spec_next(Transition::Release, state) {
        Some(state) => state,
        None => state,
    }
}

/// The ledger after one event.
///
/// An attempt that is granted hands out a guard; one that is refused changes
/// nothing. A guard that is not alive cannot go out of scope, so such an
/// event changes nothing either.
pub open spec fn after(ledger: Ledger, event: Event) -> Ledger {
    match event {
        Event::TryWrite => match spec_next(Transition::AcquireWrite, ledger.state) {
            Some(state) => Ledger { state, writers: ledger.writers + 1, ..ledger },
            None => ledger,
        },
        Event::TryRead => match spec_next(Transition::AcquireRead, ledger.state) {
            Some(state) => Ledger { state, readers: ledger.readers + 1, ..ledger },
            None => ledger,
        },
        Event::DropWrite => if ledger.writers > 0 {
            Ledger {
                state: released(ledger.state),
                writers: (ledger.writers - 1) as nat,
                ..ledger
            }
        } else {
            ledger
        },
        Event::DropRead => if ledger.readers > 0 {
            Ledger {
                state: released(ledger.state),
                readers: (ledger.readers - 1) as nat,
                ..ledger
            }
        } else {
            ledger
        },
    }
}

/// The ledger after a run of events, first to last.
pub open spec fn run(ledger: Ledger, events: Seq<Event>) -> Ledger
    decreases events.len(),
{
    if events.len() == 0 {
        ledger
    } else {
        after(run(ledger, events.drop_last()), events.last())
    }
}

/// The flag word tells the truth. Either one write guard is alive, no read
/// guard is, and the word is the sentinel; or no write guard is alive and
/// the word is the number of read guards, which is below the sentinel.
pub open spec fn consistent(ledger: Ledger) -> bool {
    if ledger.writers > 0 {
        ledger.writers == 1 && ledger.readers == 0 && ledger.state == WRITE_NUMBER
    } else {
        ledger.readers < WRITE_NUMBER && ledger.state == ledger.readers
    }
}

/// The one event that the flag word cannot record: a read attempt while
/// `WRITE_NUMBER - 1` read guards are alive. It is granted, and the count it
/// leaves behind is the sentinel.
pub open spec fn overflows(ledger: Ledger, event: Event) -> bool {
    event is TryRead && ledger.state + 1 == WRITE_NUMBER
}

/// No event of the run overflows the reader count.
pub open spec fn within_capacity(ledger: Ledger, events: Seq<Event>) -> bool
    decreases events.len(),
{
    events.len() == 0 || {
        &&& within_capacity(ledger, events.drop_last())
        &&& !overflows(run(ledger, events.drop_last()), events.last())
    }
}

/// Every event is an attempt to take the lock.
pub open spec fn only_attempts(events: Seq<Event>) -> bool {
    forall|i: int| 0 <= i < events.len() ==> events[i] is TryWrite || events[i] is TryRead
}

/// Every event is an attempt to take the lock for reading.
pub open spec fn only_read_attempts(events: Seq<Event>) -> bool {
    forall|i: int| 0 <= i < events.len() ==> events[i] is TryRead
}

/// The flag word never claims more than the guards that are alive. Below
/// the sentinel it counts no more readers than there are, and it is at the
/// sentinel only while a write guard is alive or the reader count has
/// overflowed. Unlike [`consistent`], this survives an overflow.
pub open spec fn backed(ledger: Ledger) -> bool {
    if ledger.state < WRITE_NUMBER {
        ledger.state <= ledger.readers
    } else {
        ledger.state == WRITE_NUMBER && (ledger.writers > 0 || ledger.readers >= WRITE_NUMBER)
    }
}

/// One event keeps the flag word truthful, unless it overflows the reader
/// count.
pub proof fn lemma_event_keeps_consistency(ledger: Ledger, event: Event)
    requires
        consistent(ledger),
        !overflows(ledger, event),
    ensures
        consistent(after(ledger, event)),
{
}

/// Mutual exclusion, in the ledger. After every run from a fresh ledger
/// that stays within capacity the flag word is truthful, so at any instant
/// either some number of read guards are counted or one write guard is,
/// never both and never two write guards.
pub proof fn lemma_run_keeps_consistency(events: Seq<Event>)
    requires
        within_capacity(unlocked(), events),
    ensures
        consistent(run(unlocked(), events)),
        run(unlocked(), events).writers <= 1,
        run(unlocked(), events).writers == 1 ==> run(unlocked(), events).readers == 0,
    decreases events.len(),
{
    if events.len() > 0 {
        lemma_run_keeps_consistency(events.drop_last());
        lemma_event_keeps_consistency(run(unlocked(), events.drop_last()), events.last());
    }
}

/// The lock's decision is the ledger's event. Whatever the flag word
/// answers to a thread at an instant when the word is the ledger's, the
/// thread is let in exactly when the attempt is granted in the ledger, and
/// the word its grant leaves behind is the ledger's next word. A release
/// that is granted leaves the word that the ledger has after the drop of a
/// guard.
pub proof fn lemma_answer_is_an_event(ledger: Ledger, answer: Answer)
    requires
        truthful(answer),
        found(answer) == ledger.state,
    ensures
        answer.transition is AcquireWrite ==> match spec_decide(answer) {
            Some(grant) => after(ledger, Event::TryWrite) == (Ledger {
                state: grant.to,
                writers: ledger.writers + 1,
                ..ledger
            }),
            None => after(ledger, Event::TryWrite) == ledger,
        },
        answer.transition is AcquireRead ==> match spec_decide(answer) {
            Some(grant) => after(ledger, Event::TryRead) == (Ledger {
                state: grant.to,
                readers: ledger.readers + 1,
                ..ledger
            }),
            None => after(ledger, Event::TryRead) == ledger,
        },
        answer.transition is Release ==> released(ledger.state) == match spec_decide(answer) {
            Some(grant) => grant.to,
            None => ledger.state,
        },
{
}

/// Every run from a fresh lock, within capacity or not, leaves the flag word
/// backed by live guards.
pub proof fn lemma_run_keeps_backing(events: Seq<Event>)
    ensures
        backed(run(unlocked(), events)),
    decreases events.len(),
{
    if events.len() > 0 {
        lemma_run_keeps_backing(events.drop_last());
    }
}

/// Readers share the lock. From a fresh lock, read attempts are all granted,
/// up to as many as the sentinel counts, so all their guards are alive
/// together, and as long as there is one of them a write attempt is refused.
pub proof fn lemma_readers_coexist(events: Seq<Event>)
    requires
        only_read_attempts(events),
        events.len() <= WRITE_NUMBER,
    ensures
        run(unlocked(), events).readers == events.len(),
        run(unlocked(), events).state == events.len(),
        run(unlocked(), events).writers == 0,
        events.len() > 0 ==> spec_next(Transition::AcquireWrite, run(unlocked(), events).state)
            is None,
    decreases events.len(),
{
    if events.len() > 0 {
        lemma_readers_coexist(events.drop_last());
    }
}

/// While a read guard is alive, a write attempt is refused and a read
/// attempt is granted, after every run from a fresh lock that stays within
/// capacity. Whatever the flag word then answers to a writer, the lock
/// decides that it stays out.
pub proof fn lemma_reader_holds_off_writers(events: Seq<Event>)
    requires
        within_capacity(unlocked(), events),
        run(unlocked(), events).readers > 0,
    ensures
        spec_next(Transition::AcquireWrite, run(unlocked(), events).state) is None,
        spec_next(Transition::AcquireRead, run(unlocked(), events).state) is Some,
        after(run(unlocked(), events), Event::TryWrite) == run(unlocked(), events),
        forall|answer: Answer|
            truthful(answer) && found(answer) == run(unlocked(), events).state
                && answer.transition is AcquireWrite ==> #[trigger] spec_decide(answer) is None,
{
    lemma_run_keeps_consistency(events);
}

/// While a write guard is alive, every attempt is refused, after every run
/// from a fresh lock that stays within capacity. Whatever the flag word then
/// answers to a reader or a writer, the lock decides that it stays out.
pub proof fn lemma_writer_holds_off_everyone(events: Seq<Event>)
    requires
        within_capacity(unlocked(), events),
        run(unlocked(), events).writers > 0,
    ensures
        spec_next(Transition::AcquireWrite, run(unlocked(), events).state) is None,
        spec_next(Transition::AcquireRead, run(unlocked(), events).state) is None,
        after(run(unlocked(), events), Event::TryWrite) == run(unlocked(), events),
        after(run(unlocked(), events), Event::TryRead) == run(unlocked(), events),
        forall|answer: Answer|
            truthful(answer) && found(answer) == run(unlocked(), events).state && (
            answer.transition is AcquireWrite || answer.transition is AcquireRead)
                ==> #[trigger] spec_decide(answer) is None,
{
    lemma_run_keeps_consistency(events);
}

/// A writer has the lock alone. Once a write attempt has been granted, every
/// read attempt and every write attempt is refused, and no number of them
/// changes anything, for as long as the write guard is alive.
pub proof fn lemma_writer_excludes_all(ledger: Ledger, attempts: Seq<Event>)
    requires
        spec_next(Transition::AcquireWrite, ledger.state) is Some,
        only_attempts(attempts),
    ensures
        after(ledger, Event::TryWrite).writers == ledger.writers + 1,
        spec_next(Transition::AcquireRead, after(ledger, Event::TryWrite).state) is None,
        spec_next(Transition::AcquireWrite, after(ledger, Event::TryWrite).state) is None,
        run(after(ledger, Event::TryWrite), attempts) == after(ledger, Event::TryWrite),
    decreases attempts.len(),
{
    if attempts.len() > 0 {
        lemma_writer_excludes_all(ledger, attempts.drop_last());
    }
}

/// A lock with no guard left is free. After any run from a fresh lock, if no
/// guard is alive then the flag word is zero and a write attempt is granted:
/// whatever the flag word then answers to a writer, the lock decides that it
/// is let in, from the unlocked word to the sentinel.
pub proof fn lemma_last_release_unlocks(events: Seq<Event>)
    requires
        run(unlocked(), events).readers == 0,
        run(unlocked(), events).writers == 0,
    ensures
        run(unlocked(), events).state == 0,
        spec_next(Transition::AcquireWrite, run(unlocked(), events).state) == Some(
            WRITE_NUMBER,
        ),
        after(run(unlocked(), events), Event::TryWrite).writers == 1,
        forall|answer: Answer|
            truthful(answer) && found(answer) == run(unlocked(), events).state
                && answer.transition is AcquireWrite ==> #[trigger] spec_decide(answer) == Some(
                (Grant { transition: Transition::AcquireWrite, from: 0, to: WRITE_NUMBER }),
            ),
{
    lemma_run_keeps_backing(events);
}

/// The drop of the last guard unlocks. After any run from a fresh lock, if
/// one guard is alive and no other, the release it asks for leaves the flag
/// word at zero exactly: whatever the flag word answers to that release, a
/// grant leaves zero and a refusal found zero. From zero a writer and a
/// reader are both let in.
pub proof fn lemma_last_drop_unlocks(events: Seq<Event>)
    requires
        run(unlocked(), events).readers + run(unlocked(), events).writers == 1,
    ensures
        released(run(unlocked(), events).state) == 0,
        run(unlocked(), events).readers == 1 ==> after(
            run(unlocked(), events),
            Event::DropRead,
        ) == unlocked(),
        run(unlocked(), events).writers == 1 ==> after(
            run(unlocked(), events),
            Event::DropWrite,
        ) == unlocked(),
        forall|answer: Answer|
            truthful(answer) && found(answer) == run(unlocked(), events).state
                && answer.transition is Release ==> match #[trigger] spec_decide(answer) {
                Some(grant) => grant.to == 0,
                None => found(answer) == 0,
            },
        spec_next(Transition::AcquireWrite, 0) == Some(WRITE_NUMBER),
        spec_next(Transition::AcquireRead, 0) == Some(1u32),
{
    lemma_run_keeps_backing(events);
}

} // verus!
