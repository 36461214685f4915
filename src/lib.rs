//! The decode/execute core of a machine controller: the print-job state
//! machine, the decoder worker that turns submitted jobs into an ordered
//! stream of actions, and the executor that hands them one at a time to the
//! motor subsystem. Threads and channels live with the caller; this crate
//! holds every decision they take.
pub mod action;
pub mod decoder;
pub mod executor;
pub mod laws;
pub mod state;
pub mod worker;
