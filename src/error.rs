//! What stops a run.
use vstd::prelude::*;

verus! {

/// The one error that ends a run, tagged with the step kind that failed.
#[derive(Clone, Debug, PartialEq, Eq)]
pub enum SwapError {
    /// A required setting is missing or malformed.
    Configuration(String),
    /// The transport to the node could not be opened.
    Connection(String),
    /// A node query failed; the node's message is kept as it came.
    Rpc(String),
    /// A contract read or a gas estimate was rejected, with the node's text.
    ContractCall(String),
    /// A value left the range of its integer type.
    Overflow,
    /// The wall clock reads a time before the Unix epoch.
    ClockBeforeEpoch,
    /// A step's outcome arrived that the current stage does not wait for.
    OutOfOrder,
}

} // verus!
