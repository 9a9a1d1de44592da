use netcdf::call::{Call, Reply};
use netcdf::error::Error;
use netcdf::lock::{Action, Event, Exchange};

fn reply(status: i32, id: i32) -> Reply {
    Reply { status, id, len: 0, bytes: Vec::new(), entries: Vec::new() }
}

#[test]
fn exchange_asks_for_the_lock_first() {
    let x: Exchange<Call, Reply> = Exchange::new(Call::Close { ncid: 1 });
    assert_eq!(x.action(), Action::Acquire);
    assert_eq!(x.call(), Some(&Call::Close { ncid: 1 }));
}

#[test]
fn exchange_runs_acquire_invoke_release_done() {
    let x: Exchange<Call, Reply> = Exchange::new(Call::PathLen { ncid: 8 });
    let x = x.step(Event::Acquired);
    assert_eq!(x.action(), Action::Invoke);
    assert_eq!(x.call(), Some(&Call::PathLen { ncid: 8 }));
    let x = x.step(Event::Answered(reply(0, 0)));
    assert_eq!(x.action(), Action::Release);
    assert_eq!(x.call(), None);
    let x = x.step(Event::Released);
    assert_eq!(x.action(), Action::Done);
    assert_eq!(x.finish().ok(), Some(Ok(reply(0, 0))));
}

#[test]
fn exchange_releases_the_lock_when_the_call_failed() {
    let x: Exchange<Call, Reply> = Exchange::new(Call::Close { ncid: 8 });
    let x = x.step(Event::Acquired).step(Event::Answered(reply(-33, 0)));
    assert_eq!(x.action(), Action::Release);
    let x = x.step(Event::Released);
    assert_eq!(x.finish().ok(), Some(Ok(reply(-33, 0))));
}

#[test]
fn poisoned_lock_ends_the_exchange_without_a_call() {
    let x: Exchange<Call, Reply> = Exchange::new(Call::Close { ncid: 8 });
    let x = x.step(Event::Poisoned);
    assert_eq!(x.action(), Action::Done);
    assert_eq!(x.call(), None);
    assert_eq!(x.finish().ok(), Some(Err(Error::LockPoisoned)));
}

#[test]
fn events_out_of_turn_are_ignored() {
    let x: Exchange<Call, Reply> = Exchange::new(Call::Close { ncid: 8 });
    let x = x.step(Event::Released);
    assert_eq!(x.action(), Action::Acquire);
    let x = x.step(Event::Answered(reply(0, 1)));
    assert_eq!(x.action(), Action::Acquire);
    let x = x.step(Event::Acquired);
    let x = x.step(Event::Acquired);
    let x = x.step(Event::Poisoned);
    let x = x.step(Event::Released);
    assert_eq!(x.action(), Action::Invoke);
    let x = x.step(Event::Answered(reply(0, 2)));
    let x = x.step(Event::Answered(reply(0, 3)));
    let x = x.step(Event::Acquired);
    assert_eq!(x.action(), Action::Release);
    let x = x.step(Event::Released);
    assert_eq!(x.finish().ok(), Some(Ok(reply(0, 2))));
}

#[test]
fn finished_exchange_stays_finished() {
    let x: Exchange<Call, Reply> = Exchange::new(Call::Close { ncid: 8 });
    let x = x.step(Event::Acquired).step(Event::Answered(reply(0, 5))).step(Event::Released);
    let x = x.step(Event::Acquired).step(Event::Poisoned).step(Event::Answered(reply(1, 1)));
    assert_eq!(x.action(), Action::Done);
    assert_eq!(x.finish().ok(), Some(Ok(reply(0, 5))));
}

#[test]
fn unfinished_exchange_is_handed_back() {
    let x: Exchange<Call, Reply> = Exchange::new(Call::Close { ncid: 8 });
    let x = match x.finish() {
        Ok(_) => panic!("an exchange that has not begun has no outcome"),
        Err(x) => x,
    };
    assert_eq!(x.action(), Action::Acquire);
    let x = match x.step(Event::Acquired).finish() {
        Ok(_) => panic!("an exchange whose call is outstanding has no outcome"),
        Err(x) => x,
    };
    assert_eq!(x.action(), Action::Invoke);
}

#[test]
fn a_faithful_driver_makes_one_call_under_the_lock() {
    let mut held = false;
    let mut calls: Vec<(Call, bool)> = Vec::new();
    let mut x: Exchange<Call, i32> = Exchange::new(Call::ListGroups { ncid: 4 });
    let mut turns = 0;
    let outcome = loop {
        turns += 1;
        x = match x.action() {
            Action::Acquire => {
                held = true;
                x.step(Event::Acquired)
            }
            Action::Invoke => {
                let call = match x.call() {
                    Some(Call::ListGroups { ncid }) => Call::ListGroups { ncid: *ncid },
                    _ => panic!("the call of the exchange is the one it was made with"),
                };
                calls.push((call, held));
                x.step(Event::Answered(17))
            }
            Action::Release => {
                held = false;
                x.step(Event::Released)
            }
            Action::Done => break x.finish().ok().unwrap(),
        };
    };
    assert_eq!(turns, 4);
    assert_eq!(outcome, Ok(17));
    assert!(!held);
    assert_eq!(calls, vec![(Call::ListGroups { ncid: 4 }, true)]);
}
