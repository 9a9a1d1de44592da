//! The discipline of the process-wide lock.
//!
//! The storage library is not safe to enter from two threads at once, so every
//! call into it is made while one process-wide lock is held. An [`Exchange`]
//! is one such call from beginning to end: it tells its driver what to do next
//! (take the lock, make the call, give the lock back) and is told what came of
//! it. The driver owns the lock and makes the call; the exchange decides the
//! order.

use crate::error::Error;
use vstd::prelude::*;

verus! {

/// What the driver of an [`Exchange`] has to do next.
#[derive(Debug, Clone, Copy, PartialEq, Eq, Structural)]
pub enum Action {
    /// Take the process-wide lock, and report `Acquired` or `Poisoned`.
    Acquire,
    /// Make the call, and report `Answered` with its reply.
    Invoke,
    /// Give the lock back, and report `Released`.
    Release,
    /// Nothing more: the outcome can be taken.
    Done,
}

/// What the driver reports back.
pub enum Event<R> {
    /// The lock is now held.
    Acquired,
    /// The lock cannot be had: a thread panicked while it held it.
    Poisoned,
    /// The call returned this reply.
    Answered(R),
    /// The lock is no longer held.
    Released,
}

/// One call into the storage library under the process-wide lock.
pub enum Exchange<C, R> {
    /// The lock is being asked for; the call has not been made.
    Acquiring(C),
    /// The lock is held and the call is being made.
    Invoking(C),
    /// The call has answered and the lock is being given back.
    Releasing(R),
    /// Over, with the reply or with `LockPoisoned`.
    Finished(Result<R, Error>),
}

impl<C, R> Exchange<C, R> {
    /// What the exchange waits for its driver to do.
    pub open spec fn pending(self) -> Action {
        match self {
            Exchange::Acquiring(_) => Action::Acquire,
            Exchange::Invoking(_) => Action::Invoke,
            Exchange::Releasing(_) => Action::Release,
            Exchange::Finished(_) => Action::Done,
        }
    }

    /// The exchange after an event: an event that answers the pending action
    /// moves it on, any other is ignored.
    pub open spec fn after(self, event: Event<R>) -> Self {
        match (self, event) {
            (Exchange::Acquiring(call), Event::Acquired) => Exchange::Invoking(call),
            (Exchange::Acquiring(_), Event::Poisoned) => Exchange::Finished(
                Err(Error::LockPoisoned),
            ),
            (Exchange::Invoking(_), Event::Answered(reply)) => Exchange::Releasing(reply),
            (Exchange::Releasing(reply), Event::Released) => Exchange::Finished(Ok(reply)),
            (unmoved, _) => unmoved,
        }
    }

    /// The call that the exchange is about, until it has been made.
    pub open spec fn spec_call(self) -> Option<C> {
        match self {
            Exchange::Acquiring(call) => Some(call),
            Exchange::Invoking(call) => Some(call),
            _ => None,
        }
    }

    /// The outcome, once the exchange is over.
    pub open spec fn outcome(self) -> Option<Result<R, Error>> {
        match self {
            Exchange::Finished(outcome) => Some(outcome),
            _ => None,
        }
    }

    /// Begins an exchange for one call: the first thing asked of the driver
    /// is the lock.
    pub fn new(call: C) -> (x: Self)
        ensures
            x == Exchange::<C, R>::Acquiring(call),
    {
        Exchange::Acquiring(call)
    }

    /// What the driver has to do next.
    pub fn action(&self) -> (a: Action)
        ensures
            a == self.pending(),
    {
        match self {
            Exchange::Acquiring(_) => Action::Acquire,
            Exchange::Invoking(_) => Action::Invoke,
            Exchange::Releasing(_) => Action::Release,
            Exchange::Finished(_) => Action::Done,
        }
    }

    /// The call to make, until it has been made.
    pub fn call(&self) -> (c: Option<&C>)
        ensures
            c == match self.spec_call() {
                Some(call) => Some(&call),
                None => None,
            },
    {
        match self {
            Exchange::Acquiring(call) => Some(call),
            Exchange::Invoking(call) => Some(call),
            _ => None,
        }
    }

    /// Takes in what the driver reports and moves on.
    pub fn step(self, event: Event<R>) -> (next: Self)
        ensures
            next == self.after(event),
    {
        match self {
            Exchange::Acquiring(call) => match event {
                Event::Acquired => Exchange::Invoking(call),
                Event::Poisoned => Exchange::Finished(Err(Error::LockPoisoned)),
                _ => Exchange::Acquiring(call),
            },
            Exchange::Invoking(call) => match event {
                Event::Answered(reply) => Exchange::Releasing(reply),
                _ => Exchange::Invoking(call),
            },
            Exchange::Releasing(reply) => match event {
                Event::Released => Exchange::Finished(Ok(reply)),
                _ => Exchange::Releasing(reply),
            },
            Exchange::Finished(outcome) => Exchange::Finished(outcome),
        }
    }

    /// Ends the exchange: the reply, or `LockPoisoned`, once it is over; until
    /// then the exchange itself, unchanged.
    pub fn finish(self) -> (r: Result<Result<R, Error>, Self>)
        ensures
            r == match self {
                Exchange::Finished(outcome) => Ok::<Result<R, Error>, Self>(outcome),
                _ => Err::<Result<R, Error>, Self>(self),
            },
    {
        match self {
            Exchange::Finished(outcome) => Ok(outcome),
            unfinished => Err(unfinished),
        }
    }
}

/// How the surroundings of one exchange behave: whether the lock can be had,
/// and what the storage library answers to the call.
pub struct World<R> {
    pub poisoned: bool,
    pub reply: R,
}

/// What a driver has done so far.
pub struct Record<C> {
    /// Whether the lock is held.
    pub held: bool,
    /// How often the lock was taken.
    pub acquired: nat,
    /// How often the lock was given back.
    pub released: nat,
    /// The calls made, each with whether the lock was held while it was made.
    pub calls: Seq<(C, bool)>,
}

impl<C> Record<C> {
    /// The record of a driver that has done nothing yet.
    pub open spec fn empty() -> Self {
        Record { held: false, acquired: 0, released: 0, calls: Seq::empty() }
    }
}

/// One turn of a faithful driver: it does what the exchange waits for, notes
/// it in the record, and reports what the world made of it.
pub open spec fn turn<C, R>(x: Exchange<C, R>, world: World<R>, record: Record<C>) -> (
    Exchange<C, R>,
    Record<C>,
) {
    match x {
        Exchange::Acquiring(_) => if world.poisoned {
            (x.after(Event::Poisoned), record)
        } else {
            (
                x.after(Event::Acquired),
                Record { held: true, acquired: record.acquired + 1, ..record },
            )
        },
        Exchange::Invoking(call) => (
            x.after(Event::Answered(world.reply)),
            Record { calls: record.calls.push((call, record.held)), ..record },
        ),
        Exchange::Releasing(_) => (
            x.after(Event::Released),
            Record { held: false, released: record.released + 1, ..record },
        ),
        Exchange::Finished(_) => (x, record),
    }
}

/// A faithful driver's turns, `turns` of them.
pub open spec fn drive<C, R>(
    x: Exchange<C, R>,
    world: World<R>,
    record: Record<C>,
    turns: nat,
) -> (Exchange<C, R>, Record<C>)
    decreases turns,
{
    if turns == 0 {
        (x, record)
    } else {
        let (next, noted) = turn(x, world, record);
        drive(next, world, noted, (turns - 1) as nat)
    }
}

/// An exchange that is over stays over: no event moves it, and its outcome
/// stands.
pub proof fn lemma_finished_is_final<C, R>(x: Exchange<C, R>, event: Event<R>)
    requires
        x.pending() == Action::Done,
    ensures
        x.after(event) == x,
{
}

/// No event lets an exchange pass over a stage: the call is made only after
/// the lock was reported held, and the outcome is a reply only after the lock
/// was reported given back.
pub proof fn lemma_no_stage_is_skipped<C, R>(x: Exchange<C, R>, event: Event<R>)
    ensures
        x.after(event).pending() == Action::Invoke ==> x.pending() == Action::Invoke || (x.pending()
            == Action::Acquire && event is Acquired),
        x.after(event).pending() == Action::Release ==> x.pending() == Action::Release || (
        x.pending() == Action::Invoke && event is Answered),
        x.after(event).outcome() is Some && x.outcome() is None ==> (x.pending() == Action::Release
            && event is Released && x.after(event).outcome() == Some(
            Ok::<R, Error>(x->Releasing_0),
        )) || (x.pending() == Action::Acquire && event is Poisoned && x.after(event).outcome()
            == Some(Err::<R, Error>(Error::LockPoisoned))),
{
}

/// With a faithful driver an exchange is over after three turns, whatever
/// the world does, and the whole of it was guarded: the one call was made
/// while the lock was held, the lock was given back thereafter, also where the
/// call failed, and the outcome is the call's reply. Where the lock is
/// poisoned no call was made at all, and the outcome is `LockPoisoned`.
pub proof fn lemma_exchange_is_guarded<C, R>(call: C, world: World<R>)
    ensures
        ({
            let (x, record) = drive(
                Exchange::<C, R>::Acquiring(call),
                world,
                Record::<C>::empty(),
                3,
            );
            &&& x.pending() == Action::Done
            &&& !record.held
            &&& record.acquired == record.released
            &&& forall|i: int| 0 <= i < record.calls.len() ==> (#[trigger] record.calls[i]).1
            &&& world.poisoned ==> record.calls.len() == 0 && x.outcome() == Some(
                Err::<R, Error>(Error::LockPoisoned),
            )
            &&& !world.poisoned ==> record.calls == seq![(call, true)] && record.acquired == 1
                && x.outcome() == Some(Ok::<R, Error>(world.reply))
        }),
{
    reveal_with_fuel(drive, 4);
    let start = Exchange::<C, R>::Acquiring(call);
    let (x, record) = drive(start, world, Record::<C>::empty(), 3);
    if !world.poisoned {
        assert(record.calls =~= seq![(call, true)]);
    }
}

/// The exchange after a sequence of events, taken in one after the other.
pub open spec fn run<C, R>(x: Exchange<C, R>, events: Seq<Event<R>>) -> Exchange<C, R>
    decreases events.len(),
{
    if events.len() == 0 {
        x
    } else {
        run(x, events.drop_last()).after(events.last())
    }
}

/// Whether the events account for the state of an exchange that began with
/// `call`: the call is still the one it began with; it is being made only
/// after the lock was reported held; a reply is at hand only if it answered
/// the call after that; the outcome is a reply only if the lock was reported
/// given back after the reply came; and the outcome is an error only if the
/// lock was reported poisoned, and the error is `LockPoisoned`.
pub open spec fn accounts_for<C, R>(events: Seq<Event<R>>, call: C, x: Exchange<C, R>) -> bool {
    match x {
        Exchange::Acquiring(c) => c == call,
        Exchange::Invoking(c) => c == call && exists|i: int|
            0 <= i < events.len() && #[trigger] events[i] is Acquired,
        Exchange::Releasing(reply) => exists|i: int, k: int|
            #![trigger events[i], events[k]]
            0 <= i < k < events.len() && events[i] is Acquired && events[k] == Event::Answered(
                reply,
            ),
        Exchange::Finished(Ok(reply)) => exists|i: int, k: int, m: int|
            #![trigger events[i], events[k], events[m]]
            0 <= i < k < m < events.len() && events[i] is Acquired && events[k]
                == Event::Answered(reply) && events[m] is Released,
        Exchange::Finished(Err(e)) => e == Error::LockPoisoned && exists|i: int|
            0 <= i < events.len() && #[trigger] events[i] is Poisoned,
    }
}

/// Whatever events an exchange is fed, in whatever order, they account for
/// the state it is in. So a reply comes out of an exchange only if the lock
/// was reported held before the call was answered and given back after, and
/// that reply is the very answer to the call.
pub proof fn lemma_events_account_for_state<C, R>(call: C, events: Seq<Event<R>>)
    ensures
        accounts_for(events, call, run(Exchange::<C, R>::Acquiring(call), events)),
    decreases events.len(),
{
    if events.len() > 0 {
        let start = Exchange::<C, R>::Acquiring(call);
        let earlier = events.drop_last();
        let last = events.len() - 1;
        let before = run(start, earlier);
        lemma_events_account_for_state(call, earlier);
        assert forall|i: int| 0 <= i < earlier.len() implies earlier[i] == events[i] by {}
        match before {
            Exchange::Acquiring(_) => {
                assert(events[last] == events.last());
            },
            Exchange::Invoking(_) => {
                let i = choose|i: int| 0 <= i < earlier.len() && #[trigger] earlier[i] is Acquired;
                assert(events[i] is Acquired);
                assert(events[last] == events.last());
            },
            Exchange::Releasing(reply) => {
                let (i, k) = choose|i: int, k: int|
                    #![trigger earlier[i], earlier[k]]
                    0 <= i < k < earlier.len() && earlier[i] is Acquired && earlier[k]
                        == Event::Answered(reply);
                assert(events[i] is Acquired && events[k] == Event::Answered(reply));
                assert(events[last] == events.last());
            },
            Exchange::Finished(Ok(reply)) => {
                let (i, k, m) = choose|i: int, k: int, m: int|
                    #![trigger earlier[i], earlier[k], earlier[m]]
                    0 <= i < k < m < earlier.len() && earlier[i] is Acquired && earlier[k]
                        == Event::Answered(reply) && earlier[m] is Released;
                assert(events[i] is Acquired && events[k] == Event::Answered(reply) && events[m]
                    is Released);
            },
            Exchange::Finished(Err(_)) => {
                let i = choose|i: int| 0 <= i < earlier.len() && #[trigger] earlier[i] is Poisoned;
                assert(events[i] is Poisoned);
            },
        }
    }
}

} // verus!
