//! Monitor for sequencing run directories.
//!
//! A sequencing run is written to disk by an external instrument and a
//! subsequent copy step.  This crate classifies how far that external process
//! has come, based only on the presence of marker files and an optional
//! completion-status document, and tracks the classification across polls
//! with a small state machine.
//!
//! The crate never touches the filesystem itself.  Every filesystem fact
//! enters as a plain [`DirScan`] observation gathered by the caller, so the
//! predicates, the completion-status parsing and the polling state machine
//! are verified end to end.

use vstd::prelude::*;

mod pathstr;
pub mod lane;
pub mod manager;
pub mod record;
pub mod run_completion;
mod sealed;

pub use manager::DirManager;
pub use manager::SeqDirState;
pub use run_completion::CompletionStatus;
pub use run_completion::Message;

use run_completion::StatusParseError;

verus! {

/// Joins `name` onto the directory `base`, inserting a separator unless
/// `base` already ends with one.
pub open spec fn spec_join(base: Seq<char>, name: Seq<char>) -> Seq<char> {
    if base.len() > 0 && base[base.len() - 1] == '/' {
        base + name
    } else {
        base + "/"@ + name
    }
}

/// Why an operation on a sequencing directory failed.
#[derive(Clone, Debug)]
pub enum SeqDirError {
    /// The path does not name what was looked for.
    NotFound(String),
    /// A lane directory's name does not fit the expected form.
    MissingLaneDirs,
    /// A lane directory holds no cycle directories.
    MissingCycles,
    /// A cycle directory holds no base-call files.
    MissingBcls(u16),
    /// A cycle directory's name does not fit the expected form.
    BadCycle(String),
    /// A numeric part of a directory name did not parse.
    ParseIntError,
    /// The completion-status document could not be classified.
    Malformed(StatusParseError),
    /// The completion-status document names an unexpected classification.
    CompletionStatus(CompletionStatus),
}

/// Spec-level value of a [`SeqDirError`].
pub enum SeqDirErrorV {
    NotFound(Seq<char>),
    MissingLaneDirs,
    MissingCycles,
    MissingBcls(u16),
    BadCycle(Seq<char>),
    ParseIntError,
    Malformed(StatusParseError),
    CompletionStatus(run_completion::CompletionStatusV),
}

impl View for SeqDirError {
    type V = SeqDirErrorV;

    open spec fn view(&self) -> SeqDirErrorV {
        match self {
            SeqDirError::NotFound(p) => SeqDirErrorV::NotFound(p@),
            SeqDirError::MissingLaneDirs => SeqDirErrorV::MissingLaneDirs,
            SeqDirError::MissingCycles => SeqDirErrorV::MissingCycles,
            SeqDirError::MissingBcls(n) => SeqDirErrorV::MissingBcls(*n),
            SeqDirError::BadCycle(p) => SeqDirErrorV::BadCycle(p@),
            SeqDirError::ParseIntError => SeqDirErrorV::ParseIntError,
            SeqDirError::Malformed(e) => SeqDirErrorV::Malformed(*e),
            SeqDirError::CompletionStatus(c) => SeqDirErrorV::CompletionStatus(c@),
        }
    }
}

/// One observation of a run directory, taken by the caller at one poll.
///
/// The crate never reads the filesystem; whoever drives it probes the run's
/// root and marker files and records the findings here.  `completion_status`
/// carries the text of `RunCompletionStatus.xml` when that file exists and
/// could be read, and `None` otherwise.
#[derive(Clone, Debug, PartialEq)]
pub struct DirScan {
    /// The root path currently resolves to a directory.
    pub root_is_dir: bool,
    /// `CopyComplete.txt` exists under the root.
    pub copy_complete: bool,
    /// `RTAComplete.txt` exists under the root.
    pub rta_complete: bool,
    /// `SequenceComplete.txt` exists under the root.
    pub sequence_complete: bool,
    /// `SampleSheet.csv` exists under the root.
    pub samplesheet_present: bool,
    /// `RunInfo.xml` exists under the root.
    pub run_info_present: bool,
    /// `RunParameters.xml` exists under the root.
    pub run_params_present: bool,
    /// The text of `RunCompletionStatus.xml`, when present and readable.
    pub completion_status: Option<String>,
}

/// Spec-level value of a [`DirScan`].
#[verifier::ext_equal]
pub struct DirScanV {
    pub root_is_dir: bool,
    pub copy_complete: bool,
    pub rta_complete: bool,
    pub sequence_complete: bool,
    pub samplesheet_present: bool,
    pub run_info_present: bool,
    pub run_params_present: bool,
    pub completion_status: Option<Seq<char>>,
}

impl View for DirScan {
    type V = DirScanV;

    open spec fn view(&self) -> DirScanV {
        DirScanV {
            root_is_dir: self.root_is_dir,
            copy_complete: self.copy_complete,
            rta_complete: self.rta_complete,
            sequence_complete: self.sequence_complete,
            samplesheet_present: self.samplesheet_present,
            run_info_present: self.run_info_present,
            run_params_present: self.run_params_present,
            completion_status: match self.completion_status {
                Some(ref c) => Some(c@),
                None => None,
            },
        }
    }
}

/// Whether a scan's completion-status document classifies the run as failed.
///
/// Absence of the document means not failed; a present document means
/// whatever its classification says, and fails to say anything when it does
/// not parse.
pub open spec fn spec_failed(scan: DirScanV) -> Result<bool, StatusParseError> {
    match scan.completion_status {
        None => Ok(false),
        Some(doc) => match run_completion::spec_parse_run_completion(doc) {
            Err(e) => Err(e),
            Ok(st) => Ok(!(st is CompletedAsPlanned)),
        },
    }
}

/// The classification of a scan's completion-status document, when the scan
/// has one.
pub open spec fn spec_completion_status(scan: DirScanV) -> Option<
    Result<run_completion::CompletionStatusV, StatusParseError>,
> {
    match scan.completion_status {
        None => None,
        Some(doc) => Some(run_completion::spec_parse_run_completion(doc)),
    }
}

/// An Illumina sequencing directory: the run's root and the well-known
/// file locations derived from it.
#[derive(Clone, Debug, PartialEq)]
pub struct SeqDir {
    pub(crate) root: String,
    pub(crate) samplesheet: String,
    pub(crate) run_info: String,
    pub(crate) run_params: String,
    pub(crate) run_completion: String,
}

/// Spec-level value of a [`SeqDir`].
#[verifier::ext_equal]
pub struct SeqDirV {
    pub root: Seq<char>,
    pub samplesheet: Seq<char>,
    pub run_info: Seq<char>,
    pub run_params: Seq<char>,
    pub run_completion: Seq<char>,
}

impl View for SeqDir {
    type V = SeqDirV;

    closed spec fn view(&self) -> SeqDirV {
        SeqDirV {
            root: self.root@,
            samplesheet: self.samplesheet@,
            run_info: self.run_info@,
            run_params: self.run_params@,
            run_completion: self.run_completion@,
        }
    }
}

/// The directory value rooted at `root`: the four well-known file locations
/// joined onto it.
pub open spec fn spec_seq_dir(root: Seq<char>) -> SeqDirV {
    SeqDirV {
        root: root,
        samplesheet: spec_join(root, "SampleSheet.csv"@),
        run_info: spec_join(root, "RunInfo.xml"@),
        run_params: spec_join(root, "RunParameters.xml"@),
        run_completion: spec_join(root, "RunCompletionStatus.xml"@),
    }
}

impl SeqDir {
    /// An inert handle with empty paths; used only as the manager's
    /// take-and-replace placeholder and never observable outside one poll.
    pub(crate) fn placeholder() -> SeqDir {
        SeqDir {
            root: String::new(),
            samplesheet: String::new(),
            run_info: String::new(),
            run_params: String::new(),
            run_completion: String::new(),
        }
    }

    /// Builds a directory handle over `path`.
    ///
    /// Succeeds exactly when the scan saw a directory at `path`.  To demand
    /// a completed run as well, use [`SeqDir::from_completed`].
    pub fn from_path(path: &str, scan: &DirScan) -> (r: Result<SeqDir, SeqDirError>)
        ensures
            scan.root_is_dir ==> (r matches Ok(d) && d@ == spec_seq_dir(path@)),
            !scan.root_is_dir ==> (r matches Err(e) && e@ == SeqDirErrorV::NotFound(path@)),
    {
        if scan.root_is_dir {
            Ok(
                SeqDir {
                    root: String::from_str(path),
                    samplesheet: pathstr::join(path, "SampleSheet.csv"),
                    run_info: pathstr::join(path, "RunInfo.xml"),
                    run_params: pathstr::join(path, "RunParameters.xml"),
                    run_completion: pathstr::join(path, "RunCompletionStatus.xml"),
                },
            )
        } else {
            Err(SeqDirError::NotFound(String::from_str(path)))
        }
    }

    /// Builds a directory handle over `path`, demanding a completed run.
    ///
    /// Completion asks that `CopyComplete.txt` be present and that the
    /// completion-status document, when there is one, classify the run as
    /// completed as planned.
    pub fn from_completed(path: &str, scan: &DirScan) -> (r: Result<SeqDir, SeqDirError>)
        ensures
            !scan.root_is_dir ==> (r matches Err(e) && e@ == SeqDirErrorV::NotFound(path@)),
            scan.root_is_dir && !scan.copy_complete ==> (r matches Err(e) && e@
                == SeqDirErrorV::NotFound(spec_join(path@, "CopyComplete.txt"@))),
            scan.root_is_dir && scan.copy_complete ==> match spec_completion_status(scan@) {
                None => r matches Ok(d) && d@ == spec_seq_dir(path@),
                Some(res) => match res {
                    Ok(st) => if st is CompletedAsPlanned {
                        r matches Ok(d) && d@ == spec_seq_dir(path@)
                    } else {
                        r matches Err(e) && e@ == SeqDirErrorV::CompletionStatus(st)
                    },
                    Err(pe) => r matches Err(e) && e@ == SeqDirErrorV::Malformed(pe),
                },
            },
    {
        let seq_dir = match Self::from_path(path, scan) {
            Ok(d) => d,
            Err(e) => {
                return Err(e);
            },
        };
        if !scan.copy_complete {
            return Err(SeqDirError::NotFound(pathstr::join(path, "CopyComplete.txt")));
        }
        match seq_dir.get_completion_status(scan) {
            None => Ok(seq_dir),
            Some(Ok(CompletionStatus::CompletedAsPlanned(..))) => Ok(seq_dir),
            Some(Ok(status)) => Err(SeqDirError::CompletionStatus(status)),
            Some(Err(e)) => Err(e),
        }
    }

    /// The run root, provided the scan still sees a directory there.
    pub fn try_root(&self, scan: &DirScan) -> (r: Result<&String, SeqDirError>)
        ensures
            scan.root_is_dir ==> (r matches Ok(p) && p@ == self@.root),
            !scan.root_is_dir ==> (r matches Err(e) && e@ == SeqDirErrorV::NotFound(self@.root)),
    {
        if scan.root_is_dir {
            Ok(&self.root)
        } else {
            Err(SeqDirError::NotFound(self.root.clone()))
        }
    }

    /// Whether the scan saw `CopyComplete.txt`.
    pub fn is_copy_complete(&self, scan: &DirScan) -> (r: bool)
        ensures
            r == scan.copy_complete,
    {
        scan.copy_complete
    }

    /// Whether the scan saw `RTAComplete.txt`.
    pub fn is_rta_complete(&self, scan: &DirScan) -> (r: bool)
        ensures
            r == scan.rta_complete,
    {
        scan.rta_complete
    }

    /// Whether the scan saw `SequenceComplete.txt`.
    pub fn is_sequence_complete(&self, scan: &DirScan) -> (r: bool)
        ensures
            r == scan.sequence_complete,
    {
        scan.sequence_complete
    }

    /// The location of `name` under the run root, provided the scan saw it
    /// there (`present` reports the caller's probe of that location).
    pub fn get_file(&self, name: &str, present: bool) -> (r: Result<String, SeqDirError>)
        ensures
            present ==> (r matches Ok(p) && p@ == spec_join(self@.root, name@)),
            !present ==> (r matches Err(e) && e@ == SeqDirErrorV::NotFound(
                spec_join(self@.root, name@),
            )),
    {
        let joined = pathstr::join(self.root.as_str(), name);
        if present {
            Ok(joined)
        } else {
            Err(SeqDirError::NotFound(joined))
        }
    }

    /// Whether the scan saw the run root.
    pub fn is_available(&self, scan: &DirScan) -> (r: bool)
        ensures
            r == scan.root_is_dir,
    {
        scan.root_is_dir
    }

    /// Whether the scan missed the run root.
    pub fn is_unavailable(&self, scan: &DirScan) -> (r: bool)
        ensures
            r == !scan.root_is_dir,
    {
        !scan.root_is_dir
    }

    /// Classifies the scan's completion-status document, when the scan has
    /// one.
    pub fn get_completion_status(&self, scan: &DirScan) -> (r: Option<
        Result<CompletionStatus, SeqDirError>,
    >)
        ensures
            match spec_completion_status(scan@) {
                None => r is None,
                Some(res) => match res {
                    Ok(st) => r matches Some(Ok(c)) && c@ == st,
                    Err(pe) => r matches Some(Err(e)) && e@ == SeqDirErrorV::Malformed(pe),
                },
            },
    {
        match &scan.completion_status {
            None => None,
            Some(doc) => match run_completion::parse_run_completion(doc.as_str()) {
                Ok(status) => Some(Ok(status)),
                Err(e) => Some(Err(SeqDirError::Malformed(e))),
            },
        }
    }

    /// Whether the scan's completion-status document classifies the run as
    /// failed.  A missing document means not failed; a present document
    /// that does not parse is an error, which polling deliberately treats
    /// as not failed.
    pub fn is_failed(&self, scan: &DirScan) -> (r: Result<bool, SeqDirError>)
        ensures
            r matches Ok(b) ==> spec_failed(scan@) == Ok::<bool, StatusParseError>(b),
            r matches Err(e) ==> (e@ matches SeqDirErrorV::Malformed(pe) && spec_failed(scan@)
                == Err::<bool, StatusParseError>(pe)),
    {
        match self.get_completion_status(scan) {
            None => Ok(false),
            Some(Err(e)) => Err(e),
            Some(Ok(res)) => match res {
                CompletionStatus::CompletedAsPlanned(..) => Ok(false),
                _ => Ok(true),
            },
        }
    }

    /// Whether the instrument is still sequencing: the scan did not see
    /// `SequenceComplete.txt`.
    pub fn is_sequencing(&self, scan: &DirScan) -> (r: bool)
        ensures
            r == !scan.sequence_complete,
    {
        !scan.sequence_complete
    }

    /// The run root.
    pub fn root(&self) -> (r: &String)
        ensures
            r@ == self@.root,
    {
        &self.root
    }

    /// The location of `SampleSheet.csv`, provided the scan saw it.
    pub fn samplesheet(&self, scan: &DirScan) -> (r: Result<&String, SeqDirError>)
        ensures
            scan.samplesheet_present ==> (r matches Ok(p) && p@ == self@.samplesheet),
            !scan.samplesheet_present ==> (r matches Err(e) && e@ == SeqDirErrorV::NotFound(
                self@.samplesheet,
            )),
    {
        if scan.samplesheet_present {
            Ok(&self.samplesheet)
        } else {
            Err(SeqDirError::NotFound(self.samplesheet.clone()))
        }
    }

    /// The location of `RunInfo.xml`, provided the scan saw it.
    pub fn run_info(&self, scan: &DirScan) -> (r: Result<&String, SeqDirError>)
        ensures
            scan.run_info_present ==> (r matches Ok(p) && p@ == self@.run_info),
            !scan.run_info_present ==> (r matches Err(e) && e@ == SeqDirErrorV::NotFound(
                self@.run_info,
            )),
    {
        if scan.run_info_present {
            Ok(&self.run_info)
        } else {
            Err(SeqDirError::NotFound(self.run_info.clone()))
        }
    }

    /// The location of `RunParameters.xml`, provided the scan saw it.
    pub fn run_params(&self, scan: &DirScan) -> (r: Result<&String, SeqDirError>)
        ensures
            scan.run_params_present ==> (r matches Ok(p) && p@ == self@.run_params),
            !scan.run_params_present ==> (r matches Err(e) && e@ == SeqDirErrorV::NotFound(
                self@.run_params,
            )),
    {
        if scan.run_params_present {
            Ok(&self.run_params)
        } else {
            Err(SeqDirError::NotFound(self.run_params.clone()))
        }
    }

    /// Reads the run's lanes, given the caller's probes of the eight
    /// candidate lane directories; see [`lane::detect_lanes`].
    pub fn lanes(&self, probes: &Vec<lane::LaneProbe>) -> (r: Result<
        Vec<lane::Lane>,
        SeqDirError,
    >)
        requires
            probes@.len() == 8,
        ensures
            r matches Ok(lanes) ==> lane::spec_detect_lanes(self@.root, lane::probe_views(probes@))
                == Ok::<Seq<lane::LaneV>, SeqDirErrorV>(lane::lane_views(lanes@)),
            r matches Err(e) ==> lane::spec_detect_lanes(self@.root, lane::probe_views(probes@))
                == Err::<Seq<lane::LaneV>, SeqDirErrorV>(e@),
    {
        lane::detect_lanes(self.root.as_str(), probes)
    }

    /// The location of `RunCompletionStatus.xml`, when the scan saw the
    /// document.  Not every platform writes one, so absence is no error.
    pub fn run_completion_status(&self, scan: &DirScan) -> (r: Option<&String>)
        ensures
            (scan@.completion_status is Some) ==> (r matches Some(p) && p@
                == self@.run_completion),
            (scan@.completion_status is None) ==> r is None,
    {
        match &scan.completion_status {
            Some(_) => Some(&self.run_completion),
            None => None,
        }
    }
}

} // verus!
