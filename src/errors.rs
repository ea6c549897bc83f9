use vstd::prelude::*;

verus! {

/// The ways a pipeline step can fail.
#[derive(Debug, Clone, Copy, PartialEq, Eq, Structural)]
pub enum AgentError {
    /// A model response did not decode into the expected shape.
    Decode,
    /// The generated server failed to build too many times in a row.
    TooManyBugs,
    /// A probe of the running server failed at the transport level.
    Probe,
}

} // verus!
