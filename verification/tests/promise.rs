use album_view::data::Error;
use album_view::promise::{Promise, Shown};

type Slot = Promise<u32, String, Error>;

fn key(text: &str) -> String {
    text.to_string()
}

#[test]
fn new_slot_is_empty() {
    let slot = Slot::new();
    assert_eq!(slot, Promise::Empty);
    assert!(!slot.is_pending());
    assert!(!slot.is_resolved());
    assert!(!slot.is_rejected());
    assert_eq!(slot.value(), None);
}

#[test]
fn defer_makes_the_slot_pending() {
    let mut slot = Slot::new();
    slot.defer(key("A1"));
    assert_eq!(slot, Promise::Pending { token: key("A1") });
    assert!(slot.is_pending());
    assert_eq!(slot.value(), None);
}

#[test]
fn outcome_for_another_token_is_dropped() {
    let mut slot = Slot::new();
    slot.defer(key("A1"));
    assert!(!slot.update(key("A2"), Ok(7)));
    assert_eq!(slot, Promise::Pending { token: key("A1") });
    assert!(!slot.update(key("A2"), Err(Error::Transport)));
    assert_eq!(slot, Promise::Pending { token: key("A1") });
}

#[test]
fn awaited_value_resolves_the_slot() {
    let mut slot = Slot::new();
    slot.defer(key("A1"));
    assert!(slot.update(key("A1"), Ok(7)));
    assert_eq!(slot, Promise::Resolved { token: key("A1"), value: 7 });
    assert!(slot.is_resolved());
    assert!(!slot.is_pending());
    assert_eq!(slot.value(), Some(&7));
}

#[test]
fn second_outcome_for_the_same_token_is_ignored() {
    let mut slot = Slot::new();
    slot.defer(key("A1"));
    assert!(slot.update(key("A1"), Ok(7)));
    assert!(!slot.update(key("A1"), Ok(8)));
    assert_eq!(slot, Promise::Resolved { token: key("A1"), value: 7 });
    assert!(!slot.update(key("A1"), Err(Error::Decode)));
    assert_eq!(slot, Promise::Resolved { token: key("A1"), value: 7 });
}

#[test]
fn second_outcome_after_a_failure_is_ignored() {
    let mut slot = Slot::new();
    slot.defer(key("A1"));
    assert!(slot.update(key("A1"), Err(Error::NotFound)));
    assert!(!slot.update(key("A1"), Ok(8)));
    assert_eq!(slot, Promise::Rejected { token: key("A1"), error: Error::NotFound });
}

#[test]
fn not_found_rejects_the_slot() {
    let mut slot = Slot::new();
    slot.defer(key("A1"));
    assert!(slot.update(key("A1"), Err(Error::NotFound)));
    assert_eq!(slot, Promise::Rejected { token: key("A1"), error: Error::NotFound });
    assert!(slot.is_rejected());
    assert_eq!(slot.value(), None);
}

#[test]
fn transport_failure_rejects_the_slot() {
    let mut slot = Slot::new();
    slot.defer(key("A1"));
    assert!(slot.update(key("A1"), Err(Error::Transport)));
    assert_eq!(slot, Promise::Rejected { token: key("A1"), error: Error::Transport });
}

#[test]
fn decode_failure_rejects_the_slot() {
    let mut slot = Slot::new();
    slot.defer(key("A1"));
    assert!(slot.update(key("A1"), Err(Error::Decode)));
    assert_eq!(slot, Promise::Rejected { token: key("A1"), error: Error::Decode });
}

#[test]
fn outcome_without_a_request_is_ignored() {
    let mut slot = Slot::new();
    assert!(!slot.update(key("A1"), Ok(7)));
    assert_eq!(slot, Promise::Empty);
}

#[test]
fn defer_discards_an_earlier_outcome() {
    let mut slot = Slot::new();
    slot.defer(key("A1"));
    assert!(slot.update(key("A1"), Ok(7)));
    slot.defer(key("A1"));
    assert_eq!(slot, Promise::Pending { token: key("A1") });
    assert_eq!(slot.value(), None);
    assert!(slot.update(key("A1"), Ok(9)));
    assert_eq!(slot.value(), Some(&9));
}

#[test]
fn failed_request_can_be_tried_again() {
    let mut slot = Slot::new();
    slot.defer(key("A1"));
    assert!(slot.update(key("A1"), Err(Error::Transport)));
    slot.defer(key("A1"));
    assert!(slot.is_pending());
    assert!(slot.update(key("A1"), Ok(3)));
    assert_eq!(slot, Promise::Resolved { token: key("A1"), value: 3 });
}

#[test]
fn later_request_supersedes_in_either_order_of_arrival() {
    let mut slot = Slot::new();
    slot.defer(key("A1"));
    slot.defer(key("A2"));
    assert!(!slot.update(key("A1"), Ok(1)));
    assert!(slot.update(key("A2"), Ok(2)));
    assert_eq!(slot, Promise::Resolved { token: key("A2"), value: 2 });

    let mut slot = Slot::new();
    slot.defer(key("A1"));
    slot.defer(key("A2"));
    assert!(slot.update(key("A2"), Ok(2)));
    assert!(!slot.update(key("A1"), Ok(1)));
    assert_eq!(slot, Promise::Resolved { token: key("A2"), value: 2 });
}

#[test]
fn integer_tokens_are_compared_by_value() {
    let mut slot: Promise<&str, u64, Error> = Promise::new();
    slot.defer(41);
    assert!(!slot.update(42, Ok("late")));
    assert!(slot.update(41, Ok("album")));
    assert_eq!(slot.value(), Some(&"album"));
}

#[test]
fn shown_follows_the_state() {
    let mut slot = Slot::new();
    assert_eq!(slot.shown(), Shown::Nothing);
    slot.defer(key("A1"));
    assert_eq!(slot.shown(), Shown::Pending(&key("A1")));
    slot.update(key("A1"), Ok(7));
    assert_eq!(slot.shown(), Shown::Resolved(&7));
    slot.defer(key("A2"));
    slot.update(key("A2"), Err(Error::Decode));
    assert_eq!(slot.shown(), Shown::Rejected(&Error::Decode));
}

#[test]
fn copy_of_a_slot_is_in_the_same_state() {
    let mut slot = Slot::new();
    assert_eq!(slot.clone(), Promise::Empty);
    slot.defer(key("A1"));
    assert_eq!(slot.clone(), Promise::Pending { token: key("A1") });
    slot.update(key("A1"), Ok(7));
    assert_eq!(slot.clone(), Promise::Resolved { token: key("A1"), value: 7 });
    slot.defer(key("A2"));
    slot.update(key("A2"), Err(Error::Transport));
    assert_eq!(slot.clone(), Promise::Rejected { token: key("A2"), error: Error::Transport });
}
