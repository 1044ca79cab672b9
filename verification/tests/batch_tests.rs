use bplist_fetch::batch::Batch;
use bplist_fetch::outcome::{Failure, ItemError, Outcome};

fn failure(key: &str, name: &str, kind: ItemError, detail: &str) -> Outcome {
    Outcome::Failed(Failure {
        key: key.to_string(),
        name: name.to_string(),
        kind,
        detail: detail.to_string(),
    })
}

#[test]
fn every_item_reports_exactly_once() {
    let mut b = Batch::new(3);
    assert_eq!(b.len(), 3);
    assert!(!b.is_complete());
    b.record(1, Outcome::Success);
    assert!(!b.is_complete());
    b.record(0, failure("k0", "n0", ItemError::DownloadFailed, "status 404"));
    b.record(2, Outcome::Success);
    assert!(b.is_complete());
    assert!(b.outcome(0).is_some());
    assert!(b.outcome(1).is_some());
    assert!(b.outcome(2).is_some());
}

#[test]
fn empty_batch_is_complete() {
    let b = Batch::new(0);
    assert_eq!(b.len(), 0);
    assert!(b.is_complete());
}

#[test]
fn recording_a_failure_leaves_other_slots_alone() {
    let mut b = Batch::new(2);
    b.record(1, Outcome::Success);
    b.record(0, failure("bad", "Bad item", ItemError::ArchiveError, "not a zip"));
    match b.outcome(1) {
        Some(Outcome::Success) => {},
        other => panic!("slot 1 was disturbed: {:?}", other),
    }
    match b.outcome(0) {
        Some(Outcome::Failed(f)) => {
            assert_eq!(f.key, "bad");
            assert_eq!(f.name, "Bad item");
            assert_eq!(f.kind, ItemError::ArchiveError);
            assert_eq!(f.detail, "not a zip");
        },
        other => panic!("slot 0 holds {:?}", other),
    }
}

#[test]
fn outcomes_arrive_in_any_order() {
    let mut b = Batch::new(4);
    b.record(3, Outcome::Success);
    b.record(0, Outcome::Success);
    b.record(2, Outcome::Success);
    assert!(!b.is_complete());
    b.record(1, Outcome::Success);
    assert!(b.is_complete());
}
