use hydra::address::HostAddress;
use hydra::docker::DockerBackend;
use hydra::error::MigrationError;
use hydra::migration::Migration;
use hydra::step::{Event, Request, Step};
use hydra::transfer::{advance_transfer, TransferStage, ARCHIVE_PATH, REMOTE_ARCHIVE_PATH, STATE_DIR};

fn backend() -> DockerBackend {
    DockerBackend::new(Some("tcp://127.0.0.1:2375".to_string())).unwrap()
}

fn destination() -> HostAddress {
    HostAddress::V4([203, 0, 113, 9])
}

fn drive_to(backend: &mut DockerBackend, successes: usize) -> Step<()> {
    let mut step = backend.migrate(destination(), Event::Begin);
    for _ in 0..successes {
        step = backend.migrate(destination(), Event::Succeeded);
    }
    step
}

#[test]
fn the_fixed_paths() {
    assert_eq!(STATE_DIR, "/var/lib/docker/containers");
    assert_eq!(ARCHIVE_PATH, "./containers.zip");
    assert_eq!(REMOTE_ARCHIVE_PATH, "./containers.zip");
}

#[test]
fn a_transfer_performs_its_requests_in_order() {
    let mut backend = backend();
    match backend.migrate(destination(), Event::Begin) {
        Step::Perform(Request::OpenSession(address)) => assert_eq!(address, destination()),
        other => panic!("unexpected step {:?}", other),
    }
    assert!(matches!(
        backend.migrate(destination(), Event::Succeeded),
        Step::Perform(Request::OpenSubchannel)
    ));
    match backend.migrate(destination(), Event::Succeeded) {
        Step::Perform(Request::BuildArchive { source_dir, archive_path }) => {
            assert_eq!(source_dir, "/var/lib/docker/containers");
            assert_eq!(archive_path, "./containers.zip");
        }
        other => panic!("unexpected step {:?}", other),
    }
    match backend.migrate(destination(), Event::Succeeded) {
        Step::Perform(Request::CreateRemoteFile { remote_path }) => {
            assert_eq!(remote_path, "./containers.zip");
        }
        other => panic!("unexpected step {:?}", other),
    }
    match backend.migrate(destination(), Event::Succeeded) {
        Step::Perform(Request::SendArchive { archive_path }) => {
            assert_eq!(archive_path, "./containers.zip");
        }
        other => panic!("unexpected step {:?}", other),
    }
    assert!(matches!(
        backend.migrate(destination(), Event::Succeeded),
        Step::Perform(Request::Flush)
    ));
    assert!(matches!(backend.migrate(destination(), Event::Succeeded), Step::Finished(())));
}

#[test]
fn a_transfer_finishes_only_after_the_flush() {
    for successes in 0..6 {
        let mut backend = backend();
        assert!(matches!(drive_to(&mut backend, successes), Step::Perform(_)));
    }
    let mut backend = backend();
    assert!(matches!(drive_to(&mut backend, 6), Step::Finished(())));
    assert!(matches!(
        backend.migrate(destination(), Event::Succeeded),
        Step::Aborted(MigrationError::Transfer)
    ));
}

#[test]
fn a_failure_while_archiving_is_an_archive_error() {
    let mut backend = backend();
    assert!(matches!(
        drive_to(&mut backend, 2),
        Step::Perform(Request::BuildArchive { .. })
    ));
    assert!(matches!(
        backend.migrate(destination(), Event::Failed),
        Step::Aborted(MigrationError::Archive)
    ));
}

#[test]
fn a_failure_anywhere_else_is_a_transfer_error() {
    for successes in [0usize, 1, 3, 4, 5] {
        let mut backend = backend();
        drive_to(&mut backend, successes);
        assert!(matches!(
            backend.migrate(destination(), Event::Failed),
            Step::Aborted(MigrationError::Transfer)
        ));
        assert!(matches!(
            backend.migrate(destination(), Event::Succeeded),
            Step::Aborted(MigrationError::Transfer)
        ));
    }
}

#[test]
fn a_failure_with_no_transfer_in_flight_is_a_transfer_error() {
    let mut backend = backend();
    assert!(matches!(
        backend.migrate(destination(), Event::Failed),
        Step::Aborted(MigrationError::Transfer)
    ));
}

#[test]
fn a_workload_listing_is_no_answer_to_a_transfer() {
    let mut backend = backend();
    drive_to(&mut backend, 1);
    assert!(matches!(
        backend.migrate(destination(), Event::Running(vec!["c1".to_string()])),
        Step::Aborted(MigrationError::Transfer)
    ));
}

#[test]
fn the_destination_is_read_when_the_transfer_begins() {
    let mut backend = backend();
    let six = HostAddress::V6([0x20, 0x01, 0x0d, 0xb8, 0, 0, 0, 0, 0, 0, 0, 0, 0, 0, 0, 1]);
    match backend.restore_all_containers(&six, Event::Begin) {
        Step::Perform(Request::OpenSession(address)) => assert_eq!(address, six),
        other => panic!("unexpected step {:?}", other),
    }
    assert!(matches!(
        backend.restore_all_containers(&destination(), Event::Succeeded),
        Step::Perform(Request::OpenSubchannel)
    ));
}

#[test]
fn migrate_without_a_checkpoint_transfers_all_the_same() {
    let mut fresh = backend();
    assert!(fresh.checkpoints().is_empty());
    assert!(matches!(drive_to(&mut fresh, 6), Step::Finished(())));
    assert!(fresh.checkpoints().is_empty());

    let mut captured = backend();
    captured.checkpoint(Event::Begin);
    captured.checkpoint(Event::Running(vec!["c1".to_string()]));
    assert!(matches!(captured.checkpoint(Event::Succeeded), Step::Finished(())));
    assert_eq!(captured.checkpoints().len(), 1);
    let name = captured.checkpoints()[0].checkpoint_name.clone();
    match drive_to(&mut captured, 2) {
        Step::Perform(Request::BuildArchive { source_dir, archive_path }) => {
            assert_eq!(source_dir, STATE_DIR);
            assert_eq!(archive_path, ARCHIVE_PATH);
        }
        other => panic!("unexpected step {:?}", other),
    }
    assert_eq!(captured.checkpoints().len(), 1);
    assert_eq!(captured.checkpoints()[0].checkpoint_name, name);
}

#[test]
fn a_transfer_and_a_batch_do_not_disturb_each_other() {
    let mut backend = backend();
    backend.checkpoint(Event::Begin);
    assert!(matches!(
        backend.migrate(destination(), Event::Begin),
        Step::Perform(Request::OpenSession(_))
    ));
    assert!(matches!(
        backend.checkpoint(Event::Running(vec!["c1".to_string()])),
        Step::Perform(Request::CreateCheckpoint(_))
    ));
    assert!(matches!(
        backend.migrate(destination(), Event::Succeeded),
        Step::Perform(Request::OpenSubchannel)
    ));
    assert!(matches!(backend.checkpoint(Event::Succeeded), Step::Finished(())));
}

#[test]
fn advance_transfer_walks_the_stages() {
    let begin = advance_transfer(TransferStage::Flushing, &destination(), &Event::Begin);
    assert_eq!(begin.0, TransferStage::Connecting);
    let stages = [
        (TransferStage::Connecting, TransferStage::OpeningSubchannel),
        (TransferStage::OpeningSubchannel, TransferStage::Archiving),
        (TransferStage::Archiving, TransferStage::CreatingRemoteFile),
        (TransferStage::CreatingRemoteFile, TransferStage::Sending),
        (TransferStage::Sending, TransferStage::Flushing),
        (TransferStage::Flushing, TransferStage::Idle),
        (TransferStage::Idle, TransferStage::Idle),
    ];
    for (from, to) in stages {
        let next = advance_transfer(from, &destination(), &Event::Succeeded);
        assert_eq!(next.0, to);
        let failed = advance_transfer(from, &destination(), &Event::Failed);
        assert_eq!(failed.0, TransferStage::Idle);
        assert!(matches!(failed.1, Step::Aborted(_)));
    }
}
