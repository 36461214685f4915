use vstd::prelude::*;

verus! {

/// One atomic unit of hardware work, handed from the decoder to the executor.
#[derive(Clone, Copy, Debug, PartialEq, Eq, Structural)]
pub enum Action {
    /// Move the carriage by a signed number of steps.
    Move { steps: i64 },
    /// Hold still for a number of milliseconds.
    Dwell { millis: u64 },
}

} // verus!
