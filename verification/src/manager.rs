//! The polling state machine over a sequencing directory.
//!
//! A run moves through four lifecycle phases: `Sequencing` while the
//! instrument works, `Transferring` while the copy step runs, and the
//! terminal `Complete` and `Failed`.  Orthogonally to the phase, an
//! [`Availability`] records whether the run's root could be seen at the last
//! flip, and when.
//!
//! Nothing here advances on its own.  Each poll takes one fresh [`DirScan`]
//! observation and the current time, hands the current phase's data to that
//! phase's transition rule, and stores the state the rule returns.  The
//! rules, the phase ordering they respect, and the freezing effect of an
//! unreachable root are all stated and proved below.

use vstd::prelude::*;

use crate::run_completion;
use crate::run_completion::StatusParseError;
use crate::sealed;
use crate::spec_seq_dir;
use crate::DirScan;
use crate::DirScanV;
use crate::SeqDir;
use crate::SeqDirError;
use crate::SeqDirErrorV;
use crate::SeqDirV;

verus! {

/// Whether a run's root directory could be seen, and when that last
/// changed.
///
/// The timestamp moves only when reachability actually flips; re-checking
/// an unchanged condition returns the value untouched.
#[derive(Clone, Copy, Debug, PartialEq, Eq, Structural)]
pub enum Availability {
    /// The root resolved; the timestamp is when it last became visible.
    Available(i64),
    /// The root did not resolve; the timestamp is when it last vanished.
    Unavailable(i64),
}

impl Availability {
    /// The value after comparing against a fresh reachability reading: the
    /// same value when the reading matches the variant, the opposite
    /// variant stamped `now` when it differs.
    pub open spec fn spec_check(self, reachable: bool, now: i64) -> Availability {
        match self {
            Availability::Available(_) => if reachable {
                self
            } else {
                Availability::Unavailable(now)
            },
            Availability::Unavailable(_) => if reachable {
                Availability::Available(now)
            } else {
                self
            },
        }
    }

    /// The timestamp of the last flip.
    pub open spec fn spec_timestamp(self) -> i64 {
        match self {
            Availability::Available(t) => t,
            Availability::Unavailable(t) => t,
        }
    }

    /// Compares self against a fresh reachability reading.  When the
    /// reading differs from the stored variant, returns the opposite
    /// variant stamped with `now`; otherwise returns self unchanged,
    /// original timestamp included.
    pub fn check(self, reachable: bool, now: i64) -> (r: Availability)
        ensures
            r == self.spec_check(reachable, now),
    {
        match self {
            Availability::Available(..) => if reachable {
                self
            } else {
                Availability::Unavailable(now)
            },
            Availability::Unavailable(..) => if reachable {
                Availability::Available(now)
            } else {
                self
            },
        }
    }

    /// The timestamp of the last flip.
    pub fn timestamp(&self) -> (r: i64)
        ensures
            r == self.spec_timestamp(),
    {
        match self {
            Availability::Available(t) => *t,
            Availability::Unavailable(t) => *t,
        }
    }
}

/// A directory whose run has finished and been copied out.
#[derive(Clone, Debug, PartialEq)]
pub struct CompleteSeqDir {
    pub seq_dir: SeqDir,
    pub since: i64,
    pub availability: Availability,
}

/// A directory whose run is actively sequencing.
#[derive(Clone, Debug, PartialEq)]
pub struct SequencingSeqDir {
    pub seq_dir: SeqDir,
    pub since: i64,
    pub availability: Availability,
}

/// A directory whose run has failed sequencing.
#[derive(Clone, Debug, PartialEq)]
pub struct FailedSeqDir {
    pub seq_dir: SeqDir,
    pub since: i64,
    pub availability: Availability,
}

/// A directory whose run's output is being copied out.
#[derive(Clone, Debug, PartialEq)]
pub struct TransferringSeqDir {
    pub seq_dir: SeqDir,
    pub since: i64,
    pub availability: Availability,
}

/// Spec-level data common to every phase: the directory, when the phase was
/// entered, and the availability last recorded.
#[verifier::ext_equal]
pub struct PhaseV {
    pub seq_dir: SeqDirV,
    pub since: i64,
    pub availability: Availability,
}

impl View for CompleteSeqDir {
    type V = PhaseV;

    open spec fn view(&self) -> PhaseV {
        PhaseV { seq_dir: self.seq_dir@, since: self.since, availability: self.availability }
    }
}

impl View for SequencingSeqDir {
    type V = PhaseV;

    open spec fn view(&self) -> PhaseV {
        PhaseV { seq_dir: self.seq_dir@, since: self.since, availability: self.availability }
    }
}

impl View for FailedSeqDir {
    type V = PhaseV;

    open spec fn view(&self) -> PhaseV {
        PhaseV { seq_dir: self.seq_dir@, since: self.since, availability: self.availability }
    }
}

impl View for TransferringSeqDir {
    type V = PhaseV;

    open spec fn view(&self) -> PhaseV {
        PhaseV { seq_dir: self.seq_dir@, since: self.since, availability: self.availability }
    }
}

/// The current lifecycle state of a sequencing directory.
#[derive(Clone, Debug, PartialEq)]
pub enum SeqDirState {
    Complete(CompleteSeqDir),
    Transferring(TransferringSeqDir),
    Sequencing(SequencingSeqDir),
    Failed(FailedSeqDir),
}

/// Spec-level value of a [`SeqDirState`].
#[verifier::ext_equal]
pub enum SeqDirStateV {
    Complete(PhaseV),
    Transferring(PhaseV),
    Sequencing(PhaseV),
    Failed(PhaseV),
}

impl View for SeqDirState {
    type V = SeqDirStateV;

    open spec fn view(&self) -> SeqDirStateV {
        match self {
            SeqDirState::Complete(d) => SeqDirStateV::Complete(d@),
            SeqDirState::Transferring(d) => SeqDirStateV::Transferring(d@),
            SeqDirState::Sequencing(d) => SeqDirStateV::Sequencing(d@),
            SeqDirState::Failed(d) => SeqDirStateV::Failed(d@),
        }
    }
}

impl SeqDirStateV {
    /// The phase's data, whatever the phase.
    pub open spec fn data(self) -> PhaseV {
        match self {
            SeqDirStateV::Complete(d) => d,
            SeqDirStateV::Transferring(d) => d,
            SeqDirStateV::Sequencing(d) => d,
            SeqDirStateV::Failed(d) => d,
        }
    }

    /// The same phase with its availability replaced.
    pub open spec fn with_availability(self, availability: Availability) -> SeqDirStateV {
        match self {
            SeqDirStateV::Complete(d) => SeqDirStateV::Complete(
                PhaseV { seq_dir: d.seq_dir, since: d.since, availability },
            ),
            SeqDirStateV::Transferring(d) => SeqDirStateV::Transferring(
                PhaseV { seq_dir: d.seq_dir, since: d.since, availability },
            ),
            SeqDirStateV::Sequencing(d) => SeqDirStateV::Sequencing(
                PhaseV { seq_dir: d.seq_dir, since: d.since, availability },
            ),
            SeqDirStateV::Failed(d) => SeqDirStateV::Failed(
                PhaseV { seq_dir: d.seq_dir, since: d.since, availability },
            ),
        }
    }
}

/// Whether a scan's completion-status document marks the run failed, with
/// the deliberate policy that an absent or unparsable document does not.
pub open spec fn spec_marks_failed(scan: DirScanV) -> bool {
    crate::spec_failed(scan) == Ok::<bool, StatusParseError>(true)
}

/// One poll step: the state after re-deriving the predicates from `scan` at
/// time `now`, starting from state `s`.
///
/// Reachability is judged first in every phase: an unreachable root freezes
/// the phase and only refreshes availability.  From `Sequencing`, a failure
/// verdict is judged before progress, and an absent `SequenceComplete.txt`
/// short-circuits with the state returned untouched.  From `Transferring`,
/// a found `CopyComplete.txt` is judged before a failure verdict.  The
/// terminal phases only refresh availability.
pub open spec fn spec_transition(s: SeqDirStateV, scan: DirScanV, now: i64) -> SeqDirStateV {
    match s {
        SeqDirStateV::Sequencing(d) => {
            if !scan.root_is_dir {
                SeqDirStateV::Sequencing(
                    PhaseV {
                        seq_dir: d.seq_dir,
                        since: d.since,
                        availability: d.availability.spec_check(false, now),
                    },
                )
            } else if spec_marks_failed(scan) {
                SeqDirStateV::Failed(
                    PhaseV {
                        seq_dir: d.seq_dir,
                        since: now,
                        availability: d.availability.spec_check(true, now),
                    },
                )
            } else if !scan.sequence_complete {
                SeqDirStateV::Sequencing(d)
            } else if scan.copy_complete {
                SeqDirStateV::Complete(
                    PhaseV {
                        seq_dir: d.seq_dir,
                        since: now,
                        availability: d.availability.spec_check(true, now),
                    },
                )
            } else {
                SeqDirStateV::Transferring(
                    PhaseV {
                        seq_dir: d.seq_dir,
                        since: now,
                        availability: d.availability.spec_check(true, now),
                    },
                )
            }
        },
        SeqDirStateV::Transferring(d) => {
            if !scan.root_is_dir {
                SeqDirStateV::Transferring(
                    PhaseV {
                        seq_dir: d.seq_dir,
                        since: d.since,
                        availability: d.availability.spec_check(false, now),
                    },
                )
            } else if scan.copy_complete {
                SeqDirStateV::Complete(
                    PhaseV {
                        seq_dir: d.seq_dir,
                        since: now,
                        availability: d.availability.spec_check(true, now),
                    },
                )
            } else if spec_marks_failed(scan) {
                SeqDirStateV::Failed(
                    PhaseV {
                        seq_dir: d.seq_dir,
                        since: now,
                        availability: d.availability.spec_check(true, now),
                    },
                )
            } else {
                SeqDirStateV::Transferring(
                    PhaseV {
                        seq_dir: d.seq_dir,
                        since: d.since,
                        availability: d.availability.spec_check(true, now),
                    },
                )
            }
        },
        SeqDirStateV::Complete(d) => SeqDirStateV::Complete(
            PhaseV {
                seq_dir: d.seq_dir,
                since: d.since,
                availability: d.availability.spec_check(scan.root_is_dir, now),
            },
        ),
        SeqDirStateV::Failed(d) => SeqDirStateV::Failed(
            PhaseV {
                seq_dir: d.seq_dir,
                since: d.since,
                availability: d.availability.spec_check(scan.root_is_dir, now),
            },
        ),
    }
}

impl sealed::Sealed for CompleteSeqDir {

}

impl sealed::Sealed for TransferringSeqDir {

}

impl sealed::Sealed for FailedSeqDir {

}

impl sealed::Sealed for SequencingSeqDir {

}

/// Implemented by each phase's data to take one poll step.
pub trait Transition: sealed::Sealed where Self: Sized {
    /// The lifecycle state this phase's data stands for.
    spec fn wrap(self) -> SeqDirStateV;

    /// One poll step: consumes this phase's data and returns the next
    /// state, as [`spec_transition`] describes it.
    fn transition(self, scan: &DirScan, now: i64) -> (r: SeqDirState)
        ensures
            r@ == spec_transition(self.wrap(), scan@, now),
    ;
}

/// `Complete` only transitions to itself, refreshing availability.
impl Transition for CompleteSeqDir {
    open spec fn wrap(self) -> SeqDirStateV {
        SeqDirStateV::Complete(self@)
    }

    fn transition(self, scan: &DirScan, now: i64) -> (r: SeqDirState) {
        SeqDirState::Complete(
            CompleteSeqDir {
                availability: self.availability.check(scan.root_is_dir, now),
                seq_dir: self.seq_dir,
                since: self.since,
            },
        )
    }
}

/// `Transferring` may stay, complete, or fail.
///
/// An unreachable root freezes the phase.  Otherwise `CopyComplete.txt`
/// completes the run, a failure verdict fails it, and else the phase stays
/// with availability refreshed.
impl Transition for TransferringSeqDir {
    open spec fn wrap(self) -> SeqDirStateV {
        SeqDirStateV::Transferring(self@)
    }

    fn transition(self, scan: &DirScan, now: i64) -> (r: SeqDirState) {
        if self.seq_dir.is_unavailable(scan) {
            return SeqDirState::Transferring(
                TransferringSeqDir {
                    availability: self.availability.check(scan.root_is_dir, now),
                    seq_dir: self.seq_dir,
                    since: self.since,
                },
            );
        }
        if self.seq_dir.is_copy_complete(scan) {
            SeqDirState::Complete(
                CompleteSeqDir {
                    availability: self.availability.check(true, now),
                    seq_dir: self.seq_dir,
                    since: now,
                },
            )
        } else {
            let failed = match self.seq_dir.is_failed(scan) {
                Ok(b) => b,
                Err(_) => false,
            };
            if failed {
                SeqDirState::Failed(
                    FailedSeqDir {
                        availability: self.availability.check(true, now),
                        seq_dir: self.seq_dir,
                        since: now,
                    },
                )
            } else {
                SeqDirState::Transferring(
                    TransferringSeqDir {
                        availability: self.availability.check(true, now),
                        seq_dir: self.seq_dir,
                        since: self.since,
                    },
                )
            }
        }
    }
}

/// `Sequencing` may move to any phase.
///
/// An unreachable root freezes the phase.  Otherwise a failure verdict
/// fails the run; an absent `SequenceComplete.txt` returns the state
/// untouched, availability included; a found `CopyComplete.txt` completes
/// the run; and else the copy step has begun.
impl Transition for SequencingSeqDir {
    open spec fn wrap(self) -> SeqDirStateV {
        SeqDirStateV::Sequencing(self@)
    }

    fn transition(self, scan: &DirScan, now: i64) -> (r: SeqDirState) {
        if self.seq_dir.is_unavailable(scan) {
            return SeqDirState::Sequencing(
                SequencingSeqDir {
                    availability: self.availability.check(scan.root_is_dir, now),
                    seq_dir: self.seq_dir,
                    since: self.since,
                },
            );
        }
        let failed = match self.seq_dir.is_failed(scan) {
            Ok(b) => b,
            Err(_) => false,
        };
        if failed {
            SeqDirState::Failed(
                FailedSeqDir {
                    availability: self.availability.check(true, now),
                    seq_dir: self.seq_dir,
                    since: now,
                },
            )
        } else if self.seq_dir.is_sequencing(scan) {
            SeqDirState::Sequencing(self)
        } else if self.seq_dir.is_copy_complete(scan) {
            SeqDirState::Complete(
                CompleteSeqDir {
                    availability: self.availability.check(true, now),
                    seq_dir: self.seq_dir,
                    since: now,
                },
            )
        } else {
            SeqDirState::Transferring(
                TransferringSeqDir {
                    availability: self.availability.check(true, now),
                    seq_dir: self.seq_dir,
                    since: now,
                },
            )
        }
    }
}

/// `Failed` only transitions to itself, refreshing availability.
impl Transition for FailedSeqDir {
    open spec fn wrap(self) -> SeqDirStateV {
        SeqDirStateV::Failed(self@)
    }

    fn transition(self, scan: &DirScan, now: i64) -> (r: SeqDirState) {
        SeqDirState::Failed(
            FailedSeqDir {
                availability: self.availability.check(scan.root_is_dir, now),
                seq_dir: self.seq_dir,
                since: self.since,
            },
        )
    }
}

impl SeqDirState {
    /// The inner directory handle.
    pub fn dir(&self) -> (r: &SeqDir)
        ensures
            r@ == self@.data().seq_dir,
    {
        match self {
            SeqDirState::Failed(dir) => &dir.seq_dir,
            SeqDirState::Complete(dir) => &dir.seq_dir,
            SeqDirState::Sequencing(dir) => &dir.seq_dir,
            SeqDirState::Transferring(dir) => &dir.seq_dir,
        }
    }

    /// When the current phase was entered.
    pub fn since(&self) -> (r: i64)
        ensures
            r == self@.data().since,
    {
        match self {
            SeqDirState::Failed(dir) => dir.since,
            SeqDirState::Complete(dir) => dir.since,
            SeqDirState::Sequencing(dir) => dir.since,
            SeqDirState::Transferring(dir) => dir.since,
        }
    }

    /// One poll step, dispatched to the current phase's rule.
    fn transition(self, scan: &DirScan, now: i64) -> (r: SeqDirState)
        ensures
            r@ == spec_transition(self@, scan@, now),
    {
        match self {
            SeqDirState::Complete(dir) => dir.transition(scan, now),
            SeqDirState::Failed(dir) => dir.transition(scan, now),
            SeqDirState::Sequencing(dir) => dir.transition(scan, now),
            SeqDirState::Transferring(dir) => dir.transition(scan, now),
        }
    }

    /// The availability last recorded.  Does not re-evaluate anything; see
    /// [`SeqDirState::check_available`].
    pub fn availablity(&self) -> (r: &Availability)
        ensures
            *r == self@.data().availability,
    {
        match self {
            SeqDirState::Complete(dir) => &dir.availability,
            SeqDirState::Failed(dir) => &dir.availability,
            SeqDirState::Sequencing(dir) => &dir.availability,
            SeqDirState::Transferring(dir) => &dir.availability,
        }
    }

    /// Whether the last recorded availability is the available variant.
    pub fn available(&self) -> (r: bool)
        ensures
            r == (self@.data().availability is Available),
    {
        match self.availablity() {
            Availability::Available(..) => true,
            Availability::Unavailable(..) => false,
        }
    }

    /// Refreshes the recorded availability against a fresh scan and
    /// reports whether the root is available.
    pub fn check_available(&mut self, scan: &DirScan, now: i64) -> (r: bool)
        ensures
            final(self)@ == old(self)@.with_availability(
                old(self)@.data().availability.spec_check(scan.root_is_dir, now),
            ),
            r == scan.root_is_dir,
    {
        match self {
            SeqDirState::Complete(dir) => {
                dir.availability = dir.availability.check(scan.root_is_dir, now);
            },
            SeqDirState::Failed(dir) => {
                dir.availability = dir.availability.check(scan.root_is_dir, now);
            },
            SeqDirState::Sequencing(dir) => {
                dir.availability = dir.availability.check(scan.root_is_dir, now);
            },
            SeqDirState::Transferring(dir) => {
                dir.availability = dir.availability.check(scan.root_is_dir, now);
            },
        }
        scan.root_is_dir
    }
}

/// The initial state the manager starts a run in before its first poll:
/// `Sequencing`, entered now, with the root taken as available now.
pub open spec fn spec_initial_state(root: Seq<char>, now: i64) -> SeqDirStateV {
    SeqDirStateV::Sequencing(
        PhaseV {
            seq_dir: spec_seq_dir(root),
            since: now,
            availability: Availability::Available(now),
        },
    )
}

/// Owns one lifecycle state and advances it on request.
///
/// Once a run has gone to `Complete` or `Failed` its phase never changes
/// again, though its availability still refreshes on every poll.
#[derive(Clone, Debug)]
pub struct DirManager {
    seq_dir: SeqDirState,
}

impl View for DirManager {
    type V = SeqDirStateV;

    closed spec fn view(&self) -> SeqDirStateV {
        self.seq_dir@
    }
}

impl DirManager {
    /// Starts managing the run at `path`.
    ///
    /// The initial phase is always `Sequencing`, but one poll against the
    /// given scan runs before returning, so the returned manager already
    /// reflects the observed state.
    pub fn new(path: &str, scan: &DirScan, now: i64) -> (r: Result<DirManager, SeqDirError>)
        ensures
            scan.root_is_dir ==> (r matches Ok(m) && m@ == spec_transition(
                spec_initial_state(path@, now),
                scan@,
                now,
            )),
            !scan.root_is_dir ==> (r matches Err(e) && e@ == SeqDirErrorV::NotFound(path@)),
    {
        let seq_dir = match SeqDir::from_path(path, scan) {
            Ok(d) => d,
            Err(e) => {
                return Err(e);
            },
        };
        let mut dir_manager = DirManager {
            seq_dir: SeqDirState::Sequencing(
                SequencingSeqDir { seq_dir, since: now, availability: Availability::Available(now) },
            ),
        };
        dir_manager.poll(scan, now);
        Ok(dir_manager)
    }

    /// Consumes the manager, returning the bare directory handle and
    /// discarding the phase bookkeeping.
    pub fn into_inner(self) -> (r: Result<SeqDir, SeqDirError>)
        ensures
            r matches Ok(d) && d@ == self@.data().seq_dir,
    {
        match self.seq_dir {
            SeqDirState::Complete(dir) => Ok(dir.seq_dir),
            SeqDirState::Sequencing(dir) => Ok(dir.seq_dir),
            SeqDirState::Failed(dir) => Ok(dir.seq_dir),
            SeqDirState::Transferring(dir) => Ok(dir.seq_dir),
        }
    }

    /// The directory handle being managed.
    pub fn inner(&self) -> (r: &SeqDir)
        ensures
            r@ == self@.data().seq_dir,
    {
        self.seq_dir.dir()
    }

    /// The current lifecycle state.
    pub fn state(&self) -> (r: &SeqDirState)
        ensures
            r@ == self@,
    {
        &self.seq_dir
    }

    /// The current lifecycle state, mutably.
    pub fn state_mut(&mut self) -> (r: &mut SeqDirState)
        ensures
            (*r)@ == old(self)@,
            final(self)@ == (*final(r))@,
    {
        &mut self.seq_dir
    }

    /// One poll: applies the current phase's transition rule to `scan` at
    /// time `now`, replaces the stored state, and returns a view of it.
    pub fn poll(&mut self, scan: &DirScan, now: i64) -> (r: &SeqDirState)
        ensures
            final(self)@ == spec_transition(old(self)@, scan@, now),
            r@ == final(self)@,
    {
        let mut state = placeholder_state();
        core::mem::swap(&mut state, &mut self.seq_dir);
        self.seq_dir = state.transition(scan, now);
        &self.seq_dir
    }

    /// One poll, returning the stored state mutably.  To be used
    /// judiciously: a caller that rewrites the state steps outside what the
    /// transition rules guarantee.
    pub fn poll_mut(&mut self, scan: &DirScan, now: i64) -> (r: &mut SeqDirState)
        ensures
            (*r)@ == spec_transition(old(self)@, scan@, now),
            final(self)@ == (*final(r))@,
    {
        let mut state = placeholder_state();
        core::mem::swap(&mut state, &mut self.seq_dir);
        self.seq_dir = state.transition(scan, now);
        &mut self.seq_dir
    }

    /// When the current phase was entered.
    pub fn since(&self) -> (r: i64)
        ensures
            r == self@.data().since,
    {
        self.seq_dir.since()
    }
}

/// The placeholder that [`DirManager::poll`] swaps in while the real state
/// is handed by value to its transition rule.  It never leaves that call.
fn placeholder_state() -> SeqDirState {
    SeqDirState::Sequencing(
        SequencingSeqDir {
            seq_dir: SeqDir::placeholder(),
            since: 0,
            availability: Availability::Unavailable(0),
        },
    )
}

/// The state after a run of polls, oldest first.
pub open spec fn spec_poll_trace(s: SeqDirStateV, polls: Seq<(DirScanV, i64)>) -> SeqDirStateV
    decreases polls.len(),
{
    if polls.len() == 0 {
        s
    } else {
        spec_poll_trace(spec_transition(s, polls[0].0, polls[0].1), polls.drop_first())
    }
}

/// Terminal phases are idempotent: from `Complete` or `Failed`, any run of
/// polls keeps the phase, the directory and the entry timestamp; only the
/// availability may move.
pub proof fn lemma_terminal_phases_idempotent(s: SeqDirStateV, polls: Seq<(DirScanV, i64)>)
    requires
        s is Complete || s is Failed,
    ensures
        ({
            let r = spec_poll_trace(s, polls);
            &&& (s is Complete ==> r is Complete)
            &&& (s is Failed ==> r is Failed)
            &&& r.data().since == s.data().since
            &&& r.data().seq_dir == s.data().seq_dir
        }),
    decreases polls.len(),
{
    if polls.len() > 0 {
        lemma_terminal_phases_idempotent(spec_transition(s, polls[0].0, polls[0].1), polls.drop_first());
    }
}

/// One poll of a terminal phase refreshes availability only, and leaves
/// even the availability untouched when reachability did not flip.
pub proof fn lemma_terminal_step_availability(s: SeqDirStateV, scan: DirScanV, now: i64)
    requires
        s is Complete || s is Failed,
    ensures
        ({
            let r = spec_transition(s, scan, now);
            &&& r.data().availability == s.data().availability.spec_check(scan.root_is_dir, now)
            &&& (scan.root_is_dir == (s.data().availability is Available) ==> r.data().availability
                == s.data().availability)
        }),
{
}

/// Phase order is monotonic: `Complete` and `Failed` never leave their
/// phase, and `Transferring` never returns to `Sequencing`.
pub proof fn lemma_phase_monotonic(s: SeqDirStateV, scan: DirScanV, now: i64)
    ensures
        ({
            let r = spec_transition(s, scan, now);
            &&& (s is Complete ==> r is Complete)
            &&& (s is Failed ==> r is Failed)
            &&& (s is Transferring ==> !(r is Sequencing))
        }),
{
}

/// An unreachable root freezes the lifecycle: the poll keeps the phase, the
/// directory and the entry timestamp, and only records the unavailability.
pub proof fn lemma_unreachable_freezes_phase(s: SeqDirStateV, scan: DirScanV, now: i64)
    requires
        !scan.root_is_dir,
    ensures
        ({
            let r = spec_transition(s, scan, now);
            &&& (r is Complete == s is Complete)
            &&& (r is Failed == s is Failed)
            &&& (r is Sequencing == s is Sequencing)
            &&& (r is Transferring == s is Transferring)
            &&& r.data().since == s.data().since
            &&& r.data().seq_dir == s.data().seq_dir
            &&& r.data().availability == s.data().availability.spec_check(false, now)
            &&& r.data().availability is Unavailable
        }),
{
}

/// A malformed completion-status document never marks a run failed: a poll
/// moves to `Failed` only from a parsed document that says so.
pub proof fn lemma_malformed_status_tolerated(s: SeqDirStateV, scan: DirScanV, now: i64)
    requires
        !(s is Failed),
        scan.completion_status matches Some(doc) && run_completion::spec_parse_run_completion(doc)
            is Err,
    ensures
        !(spec_transition(s, scan, now) is Failed),
{
}

} // verus!
