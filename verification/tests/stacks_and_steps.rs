use ludusavi_sync::modal::{Kind, Modal, ModalStack};
use ludusavi_sync::prelude::Error;
use ludusavi_sync::steps::{StepOutcome, StepQueue, MAX_ACTIVE_STEPS};

fn kinds(stack: &mut ModalStack) -> Vec<Kind> {
    let mut out = vec![];
    while let Some(m) = stack.close_modal() {
        out.push(m.kind());
    }
    out.reverse();
    out
}

#[test]
fn same_kind_dialog_replaces_top() {
    let mut stack = ModalStack::new();
    assert!(stack.is_empty());
    stack.show_modal(Modal::ConfirmSyncBackup { game: "A".to_string() });
    stack.show_modal(Modal::ConfirmSyncBackup { game: "B".to_string() });
    match stack.top() {
        Some(Modal::ConfirmSyncBackup { game }) => assert_eq!(game, "B"),
        _ => panic!("expected the second confirmation on top"),
    }
    assert_eq!(kinds(&mut stack), vec![Kind::ConfirmSyncBackup]);
}

#[test]
fn errors_stack() {
    let mut stack = ModalStack::new();
    stack.show_modal(Modal::Exiting);
    stack.show_modal(Modal::Error { variant: Error::NoSaveDataFound });
    stack.show_modal(Modal::Error { variant: Error::GameIsUnrecognized });
    stack.show_modal(Modal::UpdatingManifest);
    assert_eq!(kinds(&mut stack), vec![Kind::Exiting, Kind::Error, Kind::Error, Kind::UpdatingManifest]);
}

#[test]
fn closing_a_kind_keeps_the_others() {
    let mut stack = ModalStack::new();
    stack.show_modal(Modal::ActiveScanGames);
    stack.show_modal(Modal::Error { variant: Error::NoSaveDataFound });
    stack.show_modal(Modal::ActiveScanGames);
    stack.show_modal(Modal::Exiting);
    stack.close_specific_modal(Kind::ActiveScanGames);
    assert_eq!(kinds(&mut stack), vec![Kind::Error, Kind::Exiting]);
    assert!(stack.close_modal().is_none());
}

#[test]
fn steps_start_at_most_the_limit() {
    let mut q: StepQueue<u32> = StepQueue::new();
    let started = q.start((0..250).collect());
    assert_eq!(started.len(), MAX_ACTIVE_STEPS);
    assert_eq!(started[0], 0);
    assert_eq!(started[99], 99);
    assert_eq!(q.active(), 100);
    // The last waiting step starts first.
    assert_eq!(q.finish(), StepOutcome::Next(249));
    assert_eq!(q.active(), 100);
}

#[test]
fn steps_report_done_once_all_finish() {
    let mut q: StepQueue<&str> = StepQueue::new();
    let started = q.start(vec!["a", "b", "c"]);
    assert_eq!(started, vec!["a", "b", "c"]);
    assert_eq!(q.finish(), StepOutcome::Waiting);
    assert_eq!(q.finish(), StepOutcome::Waiting);
    assert_eq!(q.finish(), StepOutcome::Done);
    assert_eq!(q.active(), 0);
}

#[test]
fn steps_clear() {
    let mut q: StepQueue<u8> = StepQueue::new();
    q.start(vec![1, 2]);
    q.clear();
    assert_eq!(q.active(), 0);
    assert_eq!(q.start(vec![]), Vec::<u8>::new());
    assert_eq!(q.active(), 0);
}
