use cert_issuer::provider::Zone;
use cert_issuer::queue::TaskQueue;
use cert_issuer::work::{Action, DispenseError, PeekError};

fn b(s: &str) -> Vec<u8> {
    s.as_bytes().to_vec()
}

#[test]
fn zone_create_is_idempotent() {
    let mut zone = Zone::new();
    let id1 = zone.create(&b("_acme-challenge.reg-1.delegation.test"), &b("key-auth"));
    let id2 = zone.create(&b("_acme-challenge.reg-1.delegation.test"), &b("key-auth"));
    assert_eq!(id1, id2);
    assert_eq!(zone.record_count(), 1);
    // A different value is a different record.
    let id3 = zone.create(&b("_acme-challenge.reg-1.delegation.test"), &b("other"));
    assert_ne!(id3, id1);
    assert_eq!(zone.record_count(), 2);
}

#[test]
fn zone_delete_unknown_is_noop() {
    let mut zone = Zone::new();
    let id = zone.create(&b("n"), &b("v"));
    zone.delete(9999);
    assert_eq!(zone.record_count(), 1);
    zone.delete(id);
    assert_eq!(zone.record_count(), 0);
    // Deleting again converges.
    zone.delete(id);
    assert_eq!(zone.record_count(), 0);
    // The pair really was torn down: creating it again makes a fresh record.
    let id2 = zone.create(&b("n"), &b("v"));
    assert_ne!(id2, id);
}

#[test]
fn dispense_hands_out_single_task_once() {
    // One visible task, two dispense attempts: exactly one succeeds.
    let mut queue = TaskQueue::new();
    queue.queue(1, Action::Order, 100);
    let now = 100;
    let (id, task) = queue.dispense(now).unwrap();
    assert_eq!(id, 1);
    assert_eq!(task.action, Action::Order);
    assert_eq!(queue.dispense(now).unwrap_err(), DispenseError::NoTasksAvailable);
}

#[test]
fn dispense_respects_visibility() {
    let mut queue = TaskQueue::new();
    queue.queue(1, Action::Order, 100);
    queue.queue(2, Action::Ready, 1000);
    assert_eq!(queue.peek(50).unwrap_err(), PeekError::NoTasksAvailable);
    assert!(queue.peek(100).is_ok());
    let (id, _) = queue.dispense(100).unwrap();
    assert_eq!(id, 1);
    assert_eq!(queue.dispense(100).unwrap_err(), DispenseError::NoTasksAvailable);
    let (id, _) = queue.dispense(1000).unwrap();
    assert_eq!(id, 2);
}

#[test]
fn dispense_picks_oldest_visible() {
    let mut queue = TaskQueue::new();
    queue.queue(1, Action::Order, 50);
    queue.queue(2, Action::Ready, 40);
    queue.queue(3, Action::Finalize, 60);
    let (id, task) = queue.dispense(100).unwrap();
    assert_eq!(id, 2);
    assert_eq!(task.not_before, 40);
}

#[test]
fn queue_replaces_task_of_same_id() {
    let mut queue = TaskQueue::new();
    queue.queue(1, Action::Order, 100);
    queue.queue(1, Action::Ready, 200);
    assert_eq!(queue.task_count(), 1);
    let (id, task) = queue.dispense(300).unwrap();
    assert_eq!(id, 1);
    assert_eq!(task.action, Action::Ready);
    assert_eq!(task.not_before, 200);
}
