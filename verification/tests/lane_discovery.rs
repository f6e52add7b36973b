use seqdir::lane::detect_lanes;
use seqdir::lane::Bcl;
use seqdir::lane::Cycle;
use seqdir::lane::Lane;
use seqdir::lane::LaneEntry;
use seqdir::lane::LaneProbe;
use seqdir::SeqDirError;

const COMPLETE: &str = "test_data/seq_complete/";
const FAILED: &str = "test_data/seq_failed/";
const TRANSFERRING: &str = "test_data/seq_transferring/";

fn absent() -> LaneProbe {
    LaneProbe { exists: false, entries: Vec::new() }
}

fn cycle_entry(lane_dir: &str, cycle: &str, bcls: &[&str]) -> LaneEntry {
    LaneEntry {
        path: format!("{lane_dir}/{cycle}"),
        is_dir: true,
        is_file: false,
        children: bcls
            .iter()
            .map(|b| format!("{lane_dir}/{cycle}/{b}"))
            .collect(),
    }
}

fn filter_entry(lane_dir: &str, name: &str) -> LaneEntry {
    LaneEntry {
        path: format!("{lane_dir}/{name}"),
        is_dir: false,
        is_file: true,
        children: Vec::new(),
    }
}

/// Probes matching a completed run: one lane with one cycle of cbcls and a
/// filter file.
fn complete_probes() -> Vec<LaneProbe> {
    let lane_dir = format!("{}Data/Intensities/BaseCalls/L001", COMPLETE);
    let mut probes = vec![LaneProbe {
        exists: true,
        entries: vec![
            cycle_entry(&lane_dir, "C1.1", &["L001_1.cbcl", "L001_2.cbcl"]),
            filter_entry(&lane_dir, "s_1_1101.filter"),
        ],
    }];
    for _ in 1..8 {
        probes.push(absent());
    }
    probes
}

/// Probes matching a transferring run: the lane directory exists but holds
/// no cycle directories yet.
fn transferring_probes() -> Vec<LaneProbe> {
    let mut probes = vec![LaneProbe { exists: true, entries: Vec::new() }];
    for _ in 1..8 {
        probes.push(absent());
    }
    probes
}

/// Probes matching a failed run: no lane directories at all.
fn failed_probes() -> Vec<LaneProbe> {
    (0..8).map(|_| absent()).collect()
}

#[test]
fn no_cycles_fails() {
    assert!(detect_lanes(TRANSFERRING, &transferring_probes()).is_err())
}

#[test]
fn no_lanes_ok() {
    assert!(detect_lanes(FAILED, &failed_probes()).is_ok())
}

#[test]
fn completed_dir_succeeds() {
    detect_lanes(COMPLETE, &complete_probes()).unwrap();
}

#[test]
fn detect_lanes_reads_lane_contents() {
    let lanes = detect_lanes(COMPLETE, &complete_probes()).unwrap();
    assert_eq!(lanes.len(), 1);
    assert_eq!(lanes[0].lane_num, 1);
    let cycles = lanes[0].cycles();
    assert_eq!(cycles.len(), 1);
    assert_eq!(cycles[0].cycle_num(), 1);
    assert_eq!(cycles[0].bcls().len(), 2);
    assert_eq!(lanes[0].filters().len(), 1);
    assert!(lanes[0].filters()[0].ends_with("s_1_1101.filter"));
}

#[test]
fn bcl_classifies_by_ending() {
    assert_eq!(
        Bcl::from_path("a/b/c.bcl"),
        Some(Bcl::Bcl("a/b/c.bcl".to_string()))
    );
    assert_eq!(
        Bcl::from_path("a/b/c.bcl.gz"),
        Some(Bcl::Bcl("a/b/c.bcl.gz".to_string()))
    );
    assert_eq!(
        Bcl::from_path("a/b/c.cbcl"),
        Some(Bcl::CBcl("a/b/c.cbcl".to_string()))
    );
    assert_eq!(
        Bcl::from_path("a/b/c.cbcl.gz"),
        Some(Bcl::CBcl("a/b/c.cbcl.gz".to_string()))
    );
    assert_eq!(Bcl::from_path("a/b/c.filter"), None);
    assert_eq!(Bcl::from_path(""), None);
}

#[test]
fn cycle_parses_number_from_name() {
    let entries = vec!["runs/L001/C102.1/x.bcl".to_string()];
    let cycle = Cycle::from_path("runs/L001/C102.1".to_string(), &entries).unwrap();
    assert_eq!(cycle.cycle_num(), 102);
    assert_eq!(cycle.root, "runs/L001/C102.1");
    assert_eq!(cycle.bcls().len(), 1);
}

#[test]
fn cycle_accepts_leading_zeros() {
    let entries = vec!["runs/L001/C007.1/x.cbcl".to_string()];
    let cycle = Cycle::from_path("runs/L001/C007.1".to_string(), &entries).unwrap();
    assert_eq!(cycle.cycle_num(), 7);
}

#[test]
fn cycle_rejects_bad_name() {
    let entries = vec!["runs/L001/D1.1/x.bcl".to_string()];
    assert!(matches!(
        Cycle::from_path("runs/L001/D1.1".to_string(), &entries),
        Err(SeqDirError::BadCycle(..))
    ));
}

#[test]
fn cycle_rejects_number_out_of_range() {
    let entries = vec!["runs/L001/C70000.1/x.bcl".to_string()];
    assert!(matches!(
        Cycle::from_path("runs/L001/C70000.1".to_string(), &entries),
        Err(SeqDirError::ParseIntError)
    ));
}

#[test]
fn cycle_demands_bcls() {
    let entries = vec!["runs/L001/C1.1/notes.txt".to_string()];
    match Cycle::from_path("runs/L001/C1.1".to_string(), &entries) {
        Err(SeqDirError::MissingBcls(n)) => assert_eq!(n, 1),
        other => panic!("expected MissingBcls, got {other:?}"),
    }
}

#[test]
fn lane_rejects_bad_name() {
    let entries: Vec<LaneEntry> = Vec::new();
    assert!(matches!(
        Lane::from_path("runs/M001", &entries),
        Err(SeqDirError::MissingLaneDirs)
    ));
}

#[test]
fn lane_demands_cycles() {
    let entries = vec![filter_entry("runs/L001", "s_1_1101.filter")];
    assert!(matches!(
        Lane::from_path("runs/L001", &entries),
        Err(SeqDirError::MissingCycles)
    ));
}

#[test]
fn lane_propagates_cycle_errors() {
    let lane_dir = "runs/L001";
    let entries = vec![cycle_entry(lane_dir, "C1.1", &["notes.txt"])];
    assert!(matches!(
        Lane::from_path(lane_dir, &entries),
        Err(SeqDirError::MissingBcls(1))
    ));
}

#[test]
fn lane_iterators_match_contents() {
    let lanes = detect_lanes(COMPLETE, &complete_probes()).unwrap();
    let lane = &lanes[0];
    assert_eq!(lane.iter_cycles().count(), lane.cycles().len());
    assert_eq!(lane.iter_filters().count(), lane.filters().len());
    assert_eq!(
        lane.iter_cycles().map(|c| c.cycle_num()).collect::<Vec<u16>>(),
        vec![1]
    );
}
