use promise_rs::{Cell, PromiseState};

type Callback = Box<dyn Fn(i32) -> i32>;

#[derive(Clone, Copy, PartialEq, Debug)]
enum Producer {
    Write,
    TryReady,
    TryFinish,
    Invoke,
    Send,
    Reject,
    Done,
}

#[derive(Clone, Copy, PartialEq, Debug)]
enum Consumer {
    Write,
    TryFill,
    TryFinish,
    Invoke,
    Wait,
    Done,
    Inert,
}

struct Race {
    state: PromiseState,
    value: Cell<i32>,
    call_back: Cell<Callback>,
    recv: Cell<i32>,
    producer: Producer,
    consumer: Consumer,
    carried: Option<i32>,
    result: Option<i32>,
    calls: Vec<i32>,
}

fn start(producer: Producer) -> Race {
    Race {
        state: PromiseState::Pending,
        value: Cell::new(),
        call_back: Cell::new(),
        recv: Cell::new(),
        producer,
        consumer: Consumer::Write,
        carried: None,
        result: None,
        calls: Vec::new(),
    }
}

fn invoke(race: &mut Race) -> i32 {
    let v = race.value.take().expect("the value is read after it was written");
    let f = race.call_back.as_ref().expect("the continuation is read after it was written");
    race.calls.push(v);
    f(v)
}

fn producer_step(race: &mut Race, v: i32) -> bool {
    match race.producer {
        Producer::Write => {
            assert!(race.value.set(v).is_ok());
            race.producer = Producer::TryReady;
        }
        Producer::TryReady => {
            let swapped = race.state.compare_exchange(PromiseState::Pending, PromiseState::Ready);
            race.producer = if swapped.is_ok() { Producer::Done } else { Producer::TryFinish };
        }
        Producer::TryFinish => {
            let swapped = race.state.compare_exchange(PromiseState::Filled, PromiseState::Finished);
            assert_eq!(swapped, Ok(PromiseState::Filled));
            race.producer = Producer::Invoke;
        }
        Producer::Invoke => {
            race.carried = Some(invoke(race));
            race.producer = Producer::Send;
        }
        Producer::Send => {
            assert!(race.recv.set(race.carried.take().unwrap()).is_ok());
            race.producer = Producer::Done;
        }
        Producer::Reject => {
            race.state = PromiseState::Rejected;
            race.producer = Producer::Done;
        }
        Producer::Done => return false,
    }
    true
}

fn consumer_step(race: &mut Race, f: &mut Option<Callback>) -> bool {
    match race.consumer {
        Consumer::Write => {
            assert!(race.call_back.set(f.take().unwrap()).is_ok());
            race.consumer = Consumer::TryFill;
        }
        Consumer::TryFill => {
            let swapped = race.state.compare_exchange(PromiseState::Pending, PromiseState::Filled);
            race.consumer = if swapped.is_ok() { Consumer::Wait } else { Consumer::TryFinish };
        }
        Consumer::TryFinish => {
            let swapped = race.state.compare_exchange(PromiseState::Ready, PromiseState::Finished);
            race.consumer = match swapped {
                Ok(_) => Consumer::Invoke,
                Err(PromiseState::Rejected) => Consumer::Inert,
                Err(found) => panic!("the consumer found {:?}", found),
            };
        }
        Consumer::Invoke => {
            race.result = Some(invoke(race));
            race.consumer = Consumer::Done;
        }
        Consumer::Wait => match race.recv.take() {
            Some(r) => {
                race.result = Some(r);
                race.consumer = Consumer::Done;
            }
            None => {
                if race.producer != Producer::Done {
                    return false;
                }
                race.consumer = Consumer::Inert;
            }
        },
        Consumer::Done | Consumer::Inert => return false,
    }
    true
}

// Plays the schedule whose bit `i` says who moves at step `i`, then lets
// whoever can still move finish.
fn play(schedule: u32, producer: Producer) -> Race {
    let mut race = start(producer);
    let mut f: Option<Callback> = Some(Box::new(|v| v * 10 + 1));
    let mut step = 0;
    while step < 12 {
        if schedule >> step & 1 == 1 {
            producer_step(&mut race, 4);
        } else {
            consumer_step(&mut race, &mut f);
        }
        step += 1;
    }
    let mut moved = true;
    while moved {
        moved = producer_step(&mut race, 4);
        moved = consumer_step(&mut race, &mut f) || moved;
    }
    race
}

#[test]
fn every_interleaving_of_resolve_and_attach_runs_the_continuation_once() {
    let mut schedule = 0;
    while schedule < 1 << 12 {
        let race = play(schedule, Producer::Write);
        assert_eq!(race.calls, vec![4]);
        assert_eq!(race.result, Some(41));
        assert_eq!(race.state, PromiseState::Finished);
        assert_eq!(race.producer, Producer::Done);
        assert_eq!(race.consumer, Consumer::Done);
        schedule += 1;
    }
}

#[test]
fn every_interleaving_of_reject_and_attach_never_runs_the_continuation() {
    let mut schedule = 0;
    while schedule < 1 << 12 {
        let race = play(schedule, Producer::Reject);
        assert!(race.calls.is_empty());
        assert_eq!(race.result, None);
        assert_eq!(race.state, PromiseState::Rejected);
        assert_eq!(race.producer, Producer::Done);
        assert_eq!(race.consumer, Consumer::Inert);
        schedule += 1;
    }
}

#[test]
fn producer_first_and_consumer_first_take_different_paths_to_one_result() {
    // All producer steps first: the consumer runs the continuation.
    let mut race = start(Producer::Write);
    let mut f: Option<Callback> = Some(Box::new(|v| v + 1));
    while producer_step(&mut race, 1) {}
    assert_eq!(race.state, PromiseState::Ready);
    while consumer_step(&mut race, &mut f) {}
    assert_eq!((race.result, race.calls.len()), (Some(2), 1));
    assert_eq!(race.recv.take(), None);

    // All consumer steps first: the producer runs it and hands the result off.
    let mut race = start(Producer::Write);
    let mut f: Option<Callback> = Some(Box::new(|v| v + 1));
    while consumer_step(&mut race, &mut f) {}
    assert_eq!(race.state, PromiseState::Filled);
    assert_eq!(race.consumer, Consumer::Wait);
    while producer_step(&mut race, 1) {}
    assert_eq!(race.state, PromiseState::Finished);
    while consumer_step(&mut race, &mut f) {}
    assert_eq!((race.result, race.calls.len()), (Some(2), 1));
}
