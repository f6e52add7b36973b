//! Seal for the transition trait: only this crate's phase types may take
//! part in the state machine.

use vstd::prelude::*;

verus! {

/// Implemented only inside this crate, so no outside type can join the
/// state machine's dispatch.
pub trait Sealed {

}

} // verus!
