use seqdir::manager::Availability;
use seqdir::record::PhaseTag;
use seqdir::DirManager;
use seqdir::SeqDirState;

const COMPLETE: &str = "test_data/seq_complete/";
const FAILED: &str = "test_data/seq_failed/";
const TRANSFERRING: &str = "test_data/seq_transferring/";
const SEQUENCING: &str = "test_data/seq_sequencing/";

const COMPLETED_RCS: &str = "<?xml version=\"1.0\" encoding=\"utf-8\"?>\
<RunCompletionStatus xmlns:xsd=\"http://www.w3.org/2001/XMLSchema\">\
<RunId>20231231_foo_ABCXYZ</RunId>\
<CompletionStatus>CompletedAsPlanned</CompletionStatus>\
<ErrorDescription>None</ErrorDescription>\
</RunCompletionStatus>";

const FAILED_RCS: &str = "<?xml version=\"1.0\" encoding=\"utf-8\"?>\
<RunCompletionStatus xmlns:xsd=\"http://www.w3.org/2001/XMLSchema\">\
<RunId>20231231_bar_ABCXYZ</RunId>\
<CompletionStatus>ExceptionEndedEarly</CompletionStatus>\
<ErrorDescription>Run ended early due to an exception</ErrorDescription>\
</RunCompletionStatus>";

fn scan(
    root_is_dir: bool,
    sequence_complete: bool,
    copy_complete: bool,
    completion_status: Option<&str>,
) -> seqdir::DirScan {
    seqdir::DirScan {
        root_is_dir,
        copy_complete,
        rta_complete: sequence_complete,
        sequence_complete,
        samplesheet_present: root_is_dir,
        run_info_present: root_is_dir,
        run_params_present: root_is_dir,
        completion_status: completion_status.map(|c| c.to_string()),
    }
}

#[test]
fn goes_to_complete() {
    let s = scan(true, true, true, Some(COMPLETED_RCS));
    let mut manager = DirManager::new(COMPLETE, &s, 100).unwrap();
    match manager.state() {
        SeqDirState::Complete(..) => {}
        x => panic!("expected SeqDirState::Complete, got {x:?}"),
    };
    manager.poll(&s, 101);
    match manager.state() {
        SeqDirState::Complete(..) => {}
        x => panic!("expected SeqDirState::Complete, got {x:?}"),
    };
}

#[test]
fn goes_to_failed() {
    let s = scan(true, true, true, Some(FAILED_RCS));
    let mut manager = DirManager::new(FAILED, &s, 100).unwrap();
    match manager.state() {
        SeqDirState::Failed(..) => {}
        x => panic!("expected SeqDirState::Failed, got {x:?}"),
    };
    manager.poll(&s, 101);
    match manager.state() {
        SeqDirState::Failed(..) => {}
        x => panic!("expected SeqDirState::Failed, got {x:?}"),
    };
}

#[test]
fn goes_to_unavailable() {
    let s = scan(true, true, true, Some(COMPLETED_RCS));
    let mut manager = DirManager::new(COMPLETE, &s, 100).unwrap();
    match manager.state() {
        SeqDirState::Complete(..) => {}
        x => panic!("expected SeqDirState::Complete, got {x:?}"),
    };
    let gone = scan(false, true, true, None);
    manager.poll(&gone, 101);
    match manager.inner().is_available(&gone) {
        false => {}
        true => panic!("expected false"),
    };
    manager.poll(&s, 102);
    match manager.state() {
        SeqDirState::Complete(..) => {}
        x => panic!("expected SeqDirState::Complete, got {x:?}"),
    };
}

#[test]
fn transferring_to_complete() {
    let transferring = scan(true, true, false, None);
    let mut manager = DirManager::new(TRANSFERRING, &transferring, 100).unwrap();
    match manager.state() {
        SeqDirState::Transferring(..) => {}
        x => panic!("expected SeqDirState::Transferring, got {x:?}"),
    };
    let copied = scan(true, true, true, None);
    manager.poll(&copied, 101);
    match manager.state() {
        SeqDirState::Complete(..) => {}
        x => panic!("expected SeqDirState::Complete, got {x:?}"),
    };
}

/// A run with no markers reads as sequencing; the sequence-complete marker
/// moves it to transferring, and the copy-complete marker completes it,
/// each advance stamping the phase's entry time.
#[test]
fn happy_path_progression() {
    let sequencing = scan(true, false, false, None);
    let mut manager = DirManager::new(SEQUENCING, &sequencing, 10).unwrap();
    assert!(matches!(manager.state(), SeqDirState::Sequencing(..)));
    assert_eq!(manager.since(), 10);

    let sequenced = scan(true, true, false, None);
    manager.poll(&sequenced, 20);
    assert!(matches!(manager.state(), SeqDirState::Transferring(..)));
    assert_eq!(manager.since(), 20);

    let copied = scan(true, true, true, None);
    manager.poll(&copied, 30);
    assert!(matches!(manager.state(), SeqDirState::Complete(..)));
    assert_eq!(manager.since(), 30);
}

/// Renaming the root away flips availability without touching the phase;
/// restoring it flips availability back with a later timestamp.
#[test]
fn availability_flip_keeps_phase() {
    let present = scan(true, true, true, Some(COMPLETED_RCS));
    let mut manager = DirManager::new(COMPLETE, &present, 10).unwrap();
    assert!(matches!(manager.state(), SeqDirState::Complete(..)));
    assert_eq!(*manager.state().availablity(), Availability::Available(10));

    let gone = scan(false, true, true, None);
    manager.poll(&gone, 20);
    assert!(matches!(manager.state(), SeqDirState::Complete(..)));
    assert_eq!(*manager.state().availablity(), Availability::Unavailable(20));
    assert!(!manager.state().available());
    let t1 = manager.state().availablity().timestamp();

    manager.poll(&present, 30);
    assert!(matches!(manager.state(), SeqDirState::Complete(..)));
    assert_eq!(*manager.state().availablity(), Availability::Available(30));
    let t2 = manager.state().availablity().timestamp();
    assert!(t2 > t1);
}

/// From sequencing, a completion-status document that classifies the run
/// as ended early fails the run even though the copy never finished.
#[test]
fn sequencing_failure_detected() {
    let seq = scan(true, false, false, None);
    let mut manager = DirManager::new(SEQUENCING, &seq, 10).unwrap();
    assert!(matches!(manager.state(), SeqDirState::Sequencing(..)));

    let failed = scan(true, true, false, Some(FAILED_RCS));
    manager.poll(&failed, 20);
    assert!(matches!(manager.state(), SeqDirState::Failed(..)));
    assert_eq!(manager.since(), 20);
}

/// A completion-status document that does not parse is swallowed: the run
/// stays in its current phase instead of failing or erroring.
#[test]
fn malformed_status_tolerated() {
    let transferring = scan(true, true, false, None);
    let mut manager = DirManager::new(TRANSFERRING, &transferring, 10).unwrap();
    assert!(matches!(manager.state(), SeqDirState::Transferring(..)));

    let garbled = scan(true, true, false, Some("this is not xml <<<"));
    manager.poll(&garbled, 20);
    assert!(matches!(manager.state(), SeqDirState::Transferring(..)));
    assert_eq!(manager.since(), 10);
}

/// Terminal phases are idempotent: repeated polls with no filesystem
/// change keep the phase, the entry time and the availability.
#[test]
fn terminal_polls_idempotent() {
    let present = scan(true, true, true, Some(FAILED_RCS));
    let mut manager = DirManager::new(FAILED, &present, 10).unwrap();
    assert!(matches!(manager.state(), SeqDirState::Failed(..)));
    let since = manager.since();
    let availability = *manager.state().availablity();
    for now in 11..14 {
        manager.poll(&present, now);
        assert!(matches!(manager.state(), SeqDirState::Failed(..)));
        assert_eq!(manager.since(), since);
        assert_eq!(*manager.state().availablity(), availability);
    }
}

/// A failed run never leaves the failed phase, whatever later scans say.
#[test]
fn failed_never_recovers() {
    let failed = scan(true, true, true, Some(FAILED_RCS));
    let mut manager = DirManager::new(FAILED, &failed, 10).unwrap();
    assert!(matches!(manager.state(), SeqDirState::Failed(..)));
    let healed = scan(true, true, true, Some(COMPLETED_RCS));
    manager.poll(&healed, 20);
    assert!(matches!(manager.state(), SeqDirState::Failed(..)));
    assert_eq!(manager.since(), 10);
}

/// Flattening a state to its tagged record and reading it back recovers
/// the phase tag, the handle paths, the entry time and the availability.
#[test]
fn record_round_trip() {
    let s = scan(true, true, false, None);
    let mut manager = DirManager::new(TRANSFERRING, &s, 10).unwrap();
    manager.poll(&s, 20);
    let record = manager.state().to_record();
    assert_eq!(record.state, PhaseTag::Transferring);
    assert_eq!(record.root, "test_data/seq_transferring/");
    assert_eq!(record.since, 10);
    assert_eq!(record.availability, Availability::Available(10));
    let recovered = SeqDirState::from_record(record.clone());
    assert_eq!(&recovered, manager.state());
    assert_eq!(recovered.to_record(), record);
}

#[test]
fn manager_construction_fails_on_missing_root() {
    let gone = scan(false, false, false, None);
    assert!(matches!(
        DirManager::new(SEQUENCING, &gone, 10),
        Err(seqdir::SeqDirError::NotFound(..))
    ));
}

#[test]
fn into_inner_returns_handle() {
    let s = scan(true, false, false, None);
    let manager = DirManager::new(SEQUENCING, &s, 10).unwrap();
    let dir = manager.into_inner().unwrap();
    assert_eq!(dir.root(), SEQUENCING);
}

#[test]
fn check_available_refreshes() {
    let s = scan(true, false, false, None);
    let mut manager = DirManager::new(SEQUENCING, &s, 10).unwrap();
    let gone = scan(false, false, false, None);
    let state = manager.state_mut();
    assert!(!state.check_available(&gone, 20));
    assert_eq!(*state.availablity(), Availability::Unavailable(20));
    assert!(state.check_available(&s, 30));
    assert_eq!(*state.availablity(), Availability::Available(30));
}

/// A transferring run never slips back to sequencing, even when the
/// sequence-complete marker vanishes from later scans.
#[test]
fn transferring_never_regresses() {
    let transferring = scan(true, true, false, None);
    let mut manager = DirManager::new(TRANSFERRING, &transferring, 10).unwrap();
    assert!(matches!(manager.state(), SeqDirState::Transferring(..)));
    let markers_gone = scan(true, false, false, None);
    manager.poll(&markers_gone, 20);
    assert!(matches!(manager.state(), SeqDirState::Transferring(..)));
    assert_eq!(manager.since(), 10);
}
