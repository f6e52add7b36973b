//! The tagged record a lifecycle state is emitted as.
//!
//! Dashboards and log pipelines consume lifecycle states as flat records: a
//! phase tag, the directory handle's paths flattened in, the phase's entry
//! timestamp, and the availability with its own timestamp.  This module
//! defines that record and converts states to records and back, with the
//! round trip proved exact in both directions.  Callers that need a textual
//! wire form encode the record outside the library; the field set here is
//! the stable contract they rely on.

use vstd::prelude::*;

use crate::manager::Availability;
use crate::manager::SeqDirState;
use crate::manager::SeqDirStateV;
use crate::manager::CompleteSeqDir;
use crate::manager::FailedSeqDir;
use crate::manager::PhaseV;
use crate::manager::SequencingSeqDir;
use crate::manager::TransferringSeqDir;
use crate::SeqDir;
use crate::SeqDirV;

verus! {

/// The discriminator of a lifecycle record.
#[derive(Clone, Copy, Debug, PartialEq, Eq, Structural)]
pub enum PhaseTag {
    Sequencing,
    Transferring,
    Complete,
    Failed,
}

/// A lifecycle state flattened into one record.
#[derive(Clone, Debug, PartialEq)]
pub struct StateRecord {
    /// The lifecycle phase.
    pub state: PhaseTag,
    /// The run root.
    pub root: String,
    /// The sample-sheet location.
    pub samplesheet: String,
    /// The run-info document location.
    pub run_info: String,
    /// The run-parameters document location.
    pub run_params: String,
    /// The completion-status document location.
    pub run_completion: String,
    /// When the phase was entered.
    pub since: i64,
    /// The availability, with the timestamp of its last flip.
    pub availability: Availability,
}

/// Spec-level value of a [`StateRecord`].
#[verifier::ext_equal]
pub struct StateRecordV {
    pub state: PhaseTag,
    pub root: Seq<char>,
    pub samplesheet: Seq<char>,
    pub run_info: Seq<char>,
    pub run_params: Seq<char>,
    pub run_completion: Seq<char>,
    pub since: i64,
    pub availability: Availability,
}

impl View for StateRecord {
    type V = StateRecordV;

    open spec fn view(&self) -> StateRecordV {
        StateRecordV {
            state: self.state,
            root: self.root@,
            samplesheet: self.samplesheet@,
            run_info: self.run_info@,
            run_params: self.run_params@,
            run_completion: self.run_completion@,
            since: self.since,
            availability: self.availability,
        }
    }
}

/// The tag of a state's phase.
pub open spec fn spec_phase_tag(s: SeqDirStateV) -> PhaseTag {
    match s {
        SeqDirStateV::Sequencing(_) => PhaseTag::Sequencing,
        SeqDirStateV::Transferring(_) => PhaseTag::Transferring,
        SeqDirStateV::Complete(_) => PhaseTag::Complete,
        SeqDirStateV::Failed(_) => PhaseTag::Failed,
    }
}

/// The record a state serializes to.
pub open spec fn spec_state_record(s: SeqDirStateV) -> StateRecordV {
    StateRecordV {
        state: spec_phase_tag(s),
        root: s.data().seq_dir.root,
        samplesheet: s.data().seq_dir.samplesheet,
        run_info: s.data().seq_dir.run_info,
        run_params: s.data().seq_dir.run_params,
        run_completion: s.data().seq_dir.run_completion,
        since: s.data().since,
        availability: s.data().availability,
    }
}

/// The state a record reads back as.
pub open spec fn spec_record_state(rec: StateRecordV) -> SeqDirStateV {
    let data = PhaseV {
        seq_dir: SeqDirV {
            root: rec.root,
            samplesheet: rec.samplesheet,
            run_info: rec.run_info,
            run_params: rec.run_params,
            run_completion: rec.run_completion,
        },
        since: rec.since,
        availability: rec.availability,
    };
    match rec.state {
        PhaseTag::Sequencing => SeqDirStateV::Sequencing(data),
        PhaseTag::Transferring => SeqDirStateV::Transferring(data),
        PhaseTag::Complete => SeqDirStateV::Complete(data),
        PhaseTag::Failed => SeqDirStateV::Failed(data),
    }
}

impl SeqDirState {
    /// Flattens the state into its tagged record.
    pub fn to_record(&self) -> (r: StateRecord)
        ensures
            r@ == spec_state_record(self@),
    {
        let tag = match self {
            SeqDirState::Sequencing(..) => PhaseTag::Sequencing,
            SeqDirState::Transferring(..) => PhaseTag::Transferring,
            SeqDirState::Complete(..) => PhaseTag::Complete,
            SeqDirState::Failed(..) => PhaseTag::Failed,
        };
        let dir = self.dir();
        StateRecord {
            state: tag,
            root: dir.root.clone(),
            samplesheet: dir.samplesheet.clone(),
            run_info: dir.run_info.clone(),
            run_params: dir.run_params.clone(),
            run_completion: dir.run_completion.clone(),
            since: self.since(),
            availability: *self.availablity(),
        }
    }

    /// Reads a tagged record back into the state it was flattened from.
    pub fn from_record(rec: StateRecord) -> (r: SeqDirState)
        ensures
            r@ == spec_record_state(rec@),
    {
        let seq_dir = SeqDir {
            root: rec.root,
            samplesheet: rec.samplesheet,
            run_info: rec.run_info,
            run_params: rec.run_params,
            run_completion: rec.run_completion,
        };
        match rec.state {
            PhaseTag::Sequencing => SeqDirState::Sequencing(
                SequencingSeqDir { seq_dir, since: rec.since, availability: rec.availability },
            ),
            PhaseTag::Transferring => SeqDirState::Transferring(
                TransferringSeqDir { seq_dir, since: rec.since, availability: rec.availability },
            ),
            PhaseTag::Complete => SeqDirState::Complete(
                CompleteSeqDir { seq_dir, since: rec.since, availability: rec.availability },
            ),
            PhaseTag::Failed => SeqDirState::Failed(
                FailedSeqDir { seq_dir, since: rec.since, availability: rec.availability },
            ),
        }
    }
}

/// Round trip, state first: flattening a lifecycle state to its record and
/// reading the record back recovers the state exactly — phase tag, handle
/// paths, entry timestamp and availability included.
pub proof fn lemma_state_record_round_trip(s: SeqDirStateV)
    ensures
        spec_record_state(spec_state_record(s)) == s,
{
    assert(spec_record_state(spec_state_record(s)) =~~= s);
}

/// Round trip, record first: reading a record back and flattening the
/// recovered state reproduces the record exactly.
pub proof fn lemma_record_state_round_trip(rec: StateRecordV)
    ensures
        spec_state_record(spec_record_state(rec)) == rec,
{
    assert(spec_state_record(spec_record_state(rec)) =~~= rec);
}

} // verus!
