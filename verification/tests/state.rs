use promise_rs::{PromiseState, FILL, FINISH, PENDING, READY, REJECT};

#[test]
fn tags_have_their_numbers() {
    assert_eq!(PENDING, 0);
    assert_eq!(FILL, 1);
    assert_eq!(READY, 2);
    assert_eq!(REJECT, 3);
    assert_eq!(FINISH, 4);
    assert_eq!(PromiseState::Pending.tag(), 0);
    assert_eq!(PromiseState::Filled.tag(), 1);
    assert_eq!(PromiseState::Ready.tag(), 2);
    assert_eq!(PromiseState::Rejected.tag(), 3);
    assert_eq!(PromiseState::Finished.tag(), 4);
}

#[test]
fn from_tag_reads_the_five_tags_and_no_other() {
    assert_eq!(PromiseState::from_tag(0), Some(PromiseState::Pending));
    assert_eq!(PromiseState::from_tag(1), Some(PromiseState::Filled));
    assert_eq!(PromiseState::from_tag(2), Some(PromiseState::Ready));
    assert_eq!(PromiseState::from_tag(3), Some(PromiseState::Rejected));
    assert_eq!(PromiseState::from_tag(4), Some(PromiseState::Finished));
    assert_eq!(PromiseState::from_tag(5), None);
    assert_eq!(PromiseState::from_tag(255), None);
}

#[test]
fn tag_round_trips() {
    let mut tag: u8 = 0;
    while tag < 5 {
        let state = PromiseState::from_tag(tag).unwrap();
        assert_eq!(state.tag(), tag);
        tag += 1;
    }
}

#[test]
fn compare_exchange_swaps_on_the_expected_state() {
    let mut state = PromiseState::Pending;
    let r = state.compare_exchange(PromiseState::Pending, PromiseState::Ready);
    assert_eq!(r, Ok(PromiseState::Pending));
    assert_eq!(state, PromiseState::Ready);
}

#[test]
fn compare_exchange_reports_what_it_found() {
    let mut state = PromiseState::Filled;
    let r = state.compare_exchange(PromiseState::Pending, PromiseState::Ready);
    assert_eq!(r, Err(PromiseState::Filled));
    assert_eq!(state, PromiseState::Filled);
    let r = state.compare_exchange(PromiseState::Filled, PromiseState::Finished);
    assert_eq!(r, Ok(PromiseState::Filled));
    assert_eq!(state, PromiseState::Finished);
}
