use async_filelike::events::{backoff, Checked, Completion, Events, Pump, Pumped, Wake};
use async_filelike::runtime::{Keys, Runtime};

fn completion(key: u64, payload: &'static str) -> Completion<&'static str> {
    Completion { key, payload }
}

#[test]
fn backoff_grows_and_then_stops() {
    let delays = [2, 3, 5, 10, 50, 75, 100, 250, 500, 750, 1000, 2500, 5000, 10_000];
    for (snoozes, delay) in delays.iter().enumerate() {
        assert_eq!(backoff(snoozes), Some(*delay));
    }
    assert_eq!(backoff(14), None);
    assert_eq!(backoff(usize::MAX), None);
}

#[test]
fn filed_completion_is_found_at_once() {
    let mut events = Events::default();
    events.deliver(completion(1, "one"));
    events.deliver(completion(2, "two"));
    let mut sorter = Pump::new(2);
    match sorter.wake::<_, ()>(&mut events, Wake::Polled(Ok(2))) {
        Pumped::Done(Ok(own)) => assert_eq!((own.key, own.payload), (2, "two")),
        _ => panic!(),
    }
    let waiter = Pump::new(1);
    match waiter.check(&mut events) {
        Checked::Found(own) => assert_eq!((own.key, own.payload), (1, "one")),
        _ => panic!(),
    }
    assert!(matches!(waiter.check(&mut events), Checked::Poll(Some(2))));
}

#[test]
fn latest_completion_of_a_key_counts() {
    let mut events = Events::default();
    for (key, payload) in [(4, "old"), (3, "old"), (4, "new"), (3, "new")] {
        events.deliver(completion(key, payload));
    }
    match events.sort(3) {
        Some(own) => assert_eq!(own.payload, "new"),
        None => panic!(),
    }
    assert_eq!(events.take(4).map(|filed| filed.payload), Some("new"));
    assert!(events.take(4).is_none());
    assert!(events.take(3).is_none());
}

#[test]
fn fruitless_polls_lengthen_the_next() {
    let mut events: Events<()> = Events::default();
    let mut pump = Pump::new(9);
    assert!(matches!(pump.check(&mut events), Checked::Poll(Some(2))));
    assert!(matches!(pump.wake::<_, ()>(&mut events, Wake::TimedOut), Pumped::Again));
    assert!(matches!(pump.check(&mut events), Checked::Poll(Some(3))));
    assert!(matches!(pump.wake::<_, ()>(&mut events, Wake::Polled(Ok(0))), Pumped::Again));
    assert!(matches!(pump.check(&mut events), Checked::Poll(Some(5))));
    for _ in 2..14 {
        assert!(matches!(pump.wake::<_, ()>(&mut events, Wake::TimedOut), Pumped::Again));
    }
    assert!(matches!(pump.check(&mut events), Checked::Poll(None)));
    pump.backoff_index = usize::MAX;
    assert!(matches!(pump.wake::<_, ()>(&mut events, Wake::TimedOut), Pumped::Again));
    assert_eq!(pump.backoff_index, usize::MAX);
}

#[test]
fn foreign_events_reset_the_backoff() {
    let mut events = Events::default();
    let mut pump = Pump::new(9);
    assert!(matches!(pump.wake::<_, ()>(&mut events, Wake::TimedOut), Pumped::Again));
    assert_eq!(pump.backoff_index, 1);
    events.deliver(completion(8, "eight"));
    assert!(matches!(pump.wake::<_, ()>(&mut events, Wake::Polled(Ok(1))), Pumped::Again));
    assert_eq!(pump.backoff_index, 0);
    assert_eq!(events.take(8).map(|filed| filed.payload), Some("eight"));
}

#[test]
fn timed_out_poll_leaves_the_buffer() {
    let mut events = Events::default();
    events.deliver(completion(9, "nine"));
    let mut pump = Pump::new(9);
    assert!(matches!(pump.wake::<_, ()>(&mut events, Wake::TimedOut), Pumped::Again));
    assert!(matches!(pump.check(&mut events), Checked::Poll(Some(3))));
    match pump.wake::<_, ()>(&mut events, Wake::Polled(Ok(1))) {
        Pumped::Done(Ok(own)) => assert_eq!(own.payload, "nine"),
        _ => panic!(),
    }
}

#[test]
fn failed_poll_is_the_outcome() {
    let mut events = Events::default();
    events.deliver(completion(9, "nine"));
    let mut pump = Pump::new(9);
    match pump.wake(&mut events, Wake::Polled(Err("broken"))) {
        Pumped::Done(Err(error)) => assert_eq!(error, "broken"),
        _ => panic!(),
    }
    assert_eq!(events.sort(9).map(|own| own.payload), Some("nine"));
}

#[test]
fn filed_completions_survive_other_tasks() {
    let mut events = Events::default();
    events.deliver(completion(1, "one"));
    assert!(events.sort(7).is_none());
    events.deliver(completion(2, "two"));
    assert!(events.sort(7).is_none());
    assert!(events.take(3).is_none());
    assert_eq!(events.take(2).map(|filed| filed.payload), Some("two"));
    assert_eq!(events.take(1).map(|filed| filed.payload), Some("one"));
}

#[test]
fn keys_count_up_and_wrap() {
    let mut keys = Keys::new();
    assert_eq!(keys.operation(), 0);
    assert_eq!(keys.operation(), 1);
    keys.next_id = u64::MAX;
    assert_eq!(keys.operation(), u64::MAX);
    assert_eq!(keys.operation(), 0);
}

#[test]
fn runtime_needs_a_ring() {
    let mut runtime: Runtime<&str, u8> = match Runtime::get::<()>(Ok("ring")) {
        Some(runtime) => runtime,
        None => panic!(),
    };
    assert_eq!(runtime.ring, "ring");
    assert_eq!(runtime.keys.operation(), 0);
    assert!(runtime.events.take(0).is_none());
    assert!(runtime.events.sort(0).is_none());
    assert!(Runtime::<&str, u8>::get(Err("no ring")).is_none());
}
