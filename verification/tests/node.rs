use moonbeam_node::authorship::{AuthorshipError, AuthorshipLoop, BuildRequest};
use moonbeam_node::collation::{CollationOutcome, CollationPath, CollationStep, ValidationData};
use moonbeam_node::mapping::{BlockMapping, MAPPING_SYNC_POLL_SECONDS};
use moonbeam_node::sealing::SealCommand;
use moonbeam_node::supervisor::{TaskDirective, TaskSupervisor};

fn snapshot(slot: u64) -> ValidationData {
    ValidationData {
        relay_parent_number: slot,
        relay_parent_storage_root: 7,
        downward_messages: vec![],
        horizontal_messages: vec![],
    }
}

#[test]
fn authorship_builds_on_the_best_block_by_default() {
    let mut authoring = AuthorshipLoop::new();
    let command = SealCommand {
        create_empty: false,
        finalize: false,
        parent_hash: None,
        has_notifier: false,
    };
    let request = authoring.on_command(&command, 42, false).unwrap();
    assert_eq!(request, BuildRequest { parent: 42, include_transactions: true });
    assert_eq!(authoring.on_build_result(true), None);
    assert_eq!(authoring.on_import_result(true), Ok(false));
}

#[test]
fn authorship_honours_an_explicit_parent() {
    let mut authoring = AuthorshipLoop::new();
    let command = SealCommand {
        create_empty: true,
        finalize: true,
        parent_hash: Some(9),
        has_notifier: true,
    };
    let request = authoring.on_command(&command, 42, true).unwrap();
    assert_eq!(request, BuildRequest { parent: 9, include_transactions: false });
    assert!(authoring.attempt_has_notifier());
    assert_eq!(authoring.on_build_result(true), None);
    // a successful import of a finalize command asks the caller to finalize
    assert_eq!(authoring.on_import_result(true), Ok(true));
    assert!(!authoring.attempt_has_notifier());
}

#[test]
fn authorship_rejects_an_unknown_parent() {
    let mut authoring = AuthorshipLoop::new();
    let command = SealCommand {
        create_empty: false,
        finalize: false,
        parent_hash: Some(1234),
        has_notifier: true,
    };
    let result = authoring.on_command(&command, 42, false);
    assert_eq!(result, Err(AuthorshipError::ParentNotFound));

    // the loop is idle again and serves the next command
    let next = SealCommand { create_empty: false, finalize: false, parent_hash: None, has_notifier: false };
    assert!(authoring.on_command(&next, 43, false).is_ok());
}

#[test]
fn authorship_abandons_failed_attempts_without_retry() {
    let mut authoring = AuthorshipLoop::new();
    let command = SealCommand {
        create_empty: false,
        finalize: false,
        parent_hash: None,
        has_notifier: true,
    };

    authoring.on_command(&command, 1, false).unwrap();
    assert_eq!(authoring.on_build_result(false), Some(AuthorshipError::BuildFailed));

    // back to idle: the same command must be issued anew to try again
    authoring.on_command(&command, 2, false).unwrap();
    assert_eq!(authoring.on_build_result(true), None);
    assert_eq!(authoring.on_import_result(false), Err(AuthorshipError::ImportRejected));

    // still no retry: a further command starts from idle
    assert!(authoring.on_command(&command, 3, false).is_ok());
}

#[test]
fn collation_is_skipped_without_validation_data() {
    let mut path = CollationPath::new();
    assert_eq!(path.begin_attempt(None), CollationStep::Skipped);
    assert_eq!(path.begin_attempt(None), CollationStep::Skipped);
}

#[test]
fn collation_attempts_each_slot_once() {
    let mut path = CollationPath::new();
    let slot_5 = snapshot(5);

    let step = path.begin_attempt(Some(&slot_5));
    assert_eq!(step, CollationStep::Authoring { relay_parent_number: 5 });
    // the import fails: a per-slot miss, logged, not retried within the slot
    assert_eq!(path.complete_attempt(false), CollationOutcome::SlotMissed);
    assert_eq!(path.begin_attempt(Some(&slot_5)), CollationStep::Skipped);

    // the next slot is attempted afresh
    let slot_6 = snapshot(6);
    let step = path.begin_attempt(Some(&slot_6));
    assert_eq!(step, CollationStep::Authoring { relay_parent_number: 6 });
    assert_eq!(path.complete_attempt(true), CollationOutcome::Announced);
}

#[test]
fn block_mapping_is_append_only() {
    let mut index = BlockMapping::new();
    assert_eq!(index.lookup(1), None);

    index.on_block_imported(1, 100);
    index.on_block_imported(2, 200);
    assert_eq!(index.lookup(1), Some(100));
    assert_eq!(index.lookup(2), Some(200));
    assert_eq!(index.len(), 2);

    // a repeated or conflicting notification never rewrites the index
    index.on_block_imported(1, 999);
    assert_eq!(index.lookup(1), Some(100));
    assert_eq!(index.len(), 2);

    // the fallback tick that re-covers delayed notifications
    assert_eq!(MAPPING_SYNC_POLL_SECONDS, 6);
}

#[test]
fn ending_an_essential_task_shuts_the_node_down() {
    let mut supervisor = TaskSupervisor::new();
    let rpc = supervisor.register_task(false);
    let filter_eviction = supervisor.register_task(true);

    assert_eq!(supervisor.on_task_ended(rpc), TaskDirective::Continue);
    assert_eq!(supervisor.on_task_ended(filter_eviction), TaskDirective::ShutdownAll);
}
