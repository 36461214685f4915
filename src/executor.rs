use crate::action::Action;
use crate::worker::{ControlComms, Dispatch};
use vstd::prelude::*;

verus! {

/// The motor subsystem failed on an action of job `job`.
#[derive(Clone, Copy, Debug, PartialEq, Eq, Structural)]
pub struct MotorError {
    pub job: u64,
}

/// What the executor worker does with a message from the decoder.
#[derive(Clone, Copy, Debug, PartialEq, Eq, Structural)]
pub enum ExecStep {
    /// Hand the action to the motor subsystem and wait for its result.
    Run(Action),
    /// Drop the action: its job already failed.
    Skip,
    /// Shut down.
    Exit,
}

/// The executor worker's decisions. It runs one action at a time, and once
/// the motor subsystem fails on a job it runs nothing more of that job.
pub struct Executor {
    failed_job: Option<u64>,
    in_flight: Option<u64>,
}

/// What an `Executor` stands for: the job that failed last, and the job of the
/// action handed to the motor subsystem, if one is.
pub struct ExecModel {
    pub failed_job: Option<u64>,
    pub in_flight: Option<u64>,
}

/// The step taken on a message, and the model after it.
pub open spec fn receive_spec(m: ExecModel, c: ControlComms<Dispatch>) -> (ExecModel, ExecStep) {
    match c {
        ControlComms::Exit => (m, ExecStep::Exit),
        ControlComms::Msg(d) => if m.failed_job == Some(d.job) {
            (m, ExecStep::Skip)
        } else {
            (ExecModel { failed_job: m.failed_job, in_flight: Some(d.job) }, ExecStep::Run(d.action))
        },
    }
}

/// The model after the motor subsystem reported on the action in flight, and
/// what is reported upward.
pub open spec fn complete_spec(m: ExecModel, ok: bool) -> (ExecModel, Result<(), MotorError>) {
    let job = m.in_flight.unwrap();
    if ok {
        (ExecModel { failed_job: m.failed_job, in_flight: None }, Ok(()))
    } else {
        (ExecModel { failed_job: Some(job), in_flight: None }, Err(MotorError { job }))
    }
}

impl View for Executor {
    type V = ExecModel;

    closed spec fn view(&self) -> ExecModel {
        ExecModel { failed_job: self.failed_job, in_flight: self.in_flight }
    }
}

impl Executor {
    pub fn new() -> (r: Executor)
        ensures
            r@ == (ExecModel { failed_job: None, in_flight: None }),
    {
        Executor { failed_job: None, in_flight: None }
    }

    /// The job of the action that the motor subsystem is working on.
    pub fn in_flight(&self) -> (r: Option<u64>)
        ensures
            r == self@.in_flight,
    {
        self.in_flight
    }

    /// Decides what to do with a message from the decoder. Only called with
    /// nothing in flight.
    pub fn receive(&mut self, c: ControlComms<Dispatch>) -> (r: ExecStep)
        requires
            old(self)@.in_flight is None,
        ensures
            (final(self)@, r) == receive_spec(old(self)@, c),
    {
        match c {
            ControlComms::Exit => ExecStep::Exit,
            ControlComms::Msg(d) => {
                if self.failed_job == Some(d.job) {
                    ExecStep::Skip
                } else {
                    self.in_flight = Some(d.job);
                    ExecStep::Run(d.action)
                }
            },
        }
    }

    /// Takes the motor subsystem's result for the action in flight. A failure is
    /// returned to be reported, and the rest of its job will be skipped.
    pub fn complete(&mut self, ok: bool) -> (r: Result<(), MotorError>)
        requires
            old(self)@.in_flight is Some,
        ensures
            (final(self)@, r) == complete_spec(old(self)@, ok),
    {
        let job = self.in_flight.unwrap();
        self.in_flight = None;
        if ok {
            Ok(())
        } else {
            self.failed_job = Some(job);
            Err(MotorError { job })
        }
    }
}

} // verus!
