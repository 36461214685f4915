use crate::action::Action;
use std::collections::VecDeque;
use vstd::prelude::*;

verus! {

/// The lifecycle phase of a print job.
#[derive(Clone, Copy, Debug, PartialEq, Eq, Structural)]
pub enum Phase {
    Printing,
    Paused,
    Stopped,
}

/// A command that the current phase does not allow; `phase` is the phase it met.
#[derive(Clone, Copy, Debug, PartialEq, Eq, Structural)]
pub struct InvalidTransition {
    pub phase: Phase,
}

/// The actions of the running job that have not been dispatched yet.
pub struct PrintingState {
    pub buf: VecDeque<Action>,
}

/// The print-job state machine: a phase and, unless stopped, the pending queue.
pub struct State {
    state: Phase,
    printing_state: Option<PrintingState>,
}

/// What a `State` stands for: its phase and the queue of pending actions.
pub struct JobModel {
    pub phase: Phase,
    pub pending: Seq<Action>,
}

/// The model of a machine with no job.
pub open spec fn stopped_model() -> JobModel {
    JobModel { phase: Phase::Stopped, pending: Seq::empty() }
}

/// A model is consistent when a job is running exactly if actions are pending.
pub open spec fn model_wf(m: JobModel) -> bool {
    (m.phase == Phase::Stopped) <==> (m.pending.len() == 0)
}

/// Starting a job from a stopped machine; a job without actions is complete at once.
pub open spec fn started(actions: Seq<Action>) -> JobModel {
    if actions.len() == 0 {
        stopped_model()
    } else {
        JobModel { phase: Phase::Printing, pending: actions }
    }
}

/// Resuming: a paused job prints again, a printing one is left as it is.
pub open spec fn resumed(m: JobModel) -> JobModel {
    JobModel { phase: Phase::Printing, pending: m.pending }
}

/// Pausing: a printing job is paused, a paused one is left as it is.
pub open spec fn paused(m: JobModel) -> JobModel {
    JobModel { phase: Phase::Paused, pending: m.pending }
}

/// Taking the head of the queue; the job is complete when the queue runs empty.
pub open spec fn dequeued(m: JobModel) -> JobModel {
    if m.pending.len() <= 1 {
        stopped_model()
    } else {
        JobModel { phase: m.phase, pending: m.pending.drop_first() }
    }
}

impl View for State {
    type V = JobModel;

    closed spec fn view(&self) -> JobModel {
        JobModel {
            phase: self.state,
            pending: match self.printing_state {
                Some(p) => p.buf@,
                None => Seq::empty(),
            },
        }
    }
}

impl State {
    /// The queue is present exactly while a job runs.
    pub closed spec fn queue_present(&self) -> bool {
        (self.state == Phase::Stopped) <==> self.printing_state.is_none()
    }

    /// Well formed: the queue is present exactly while a job runs, and a running
    /// job has work left.
    pub open spec fn wf(&self) -> bool {
        &&& self.queue_present()
        &&& model_wf(self@)
    }

    pub fn new() -> (r: State)
        ensures
            r.wf(),
            r@ == stopped_model(),
    {
        State { state: Phase::Stopped, printing_state: None }
    }

    /// Installs the queue of a new job. Only a stopped machine can start one.
    pub fn print(&mut self, actions: VecDeque<Action>) -> (r: Result<(), InvalidTransition>)
        requires
            old(self).wf(),
        ensures
            final(self).wf(),
            old(self)@.phase == Phase::Stopped ==> r is Ok && final(self)@ == started(actions@),
            old(self)@.phase != Phase::Stopped ==> r == Err::<(), InvalidTransition>(
                InvalidTransition { phase: old(self)@.phase },
            ) && final(self)@ == old(self)@,
    {
        match self.state {
            Phase::Printing => Err(InvalidTransition { phase: Phase::Printing }),
            Phase::Paused => Err(InvalidTransition { phase: Phase::Paused }),
            Phase::Stopped => {
                if actions.len() > 0 {
                    self.state = Phase::Printing;
                    self.printing_state = Some(PrintingState { buf: actions });
                }
                Ok(())
            },
        }
    }

    /// Drops the job, whatever the phase.
    pub fn stop(&mut self)
        ensures
            final(self).wf(),
            final(self)@ == stopped_model(),
    {
        self.state = Phase::Stopped;
        self.printing_state = None;
    }

    /// Resumes a paused job; a printing job is left as it is, a stopped machine refuses.
    pub fn play(&mut self) -> (r: Result<(), InvalidTransition>)
        requires
            old(self).wf(),
        ensures
            final(self).wf(),
            old(self)@.phase != Phase::Stopped ==> r is Ok && final(self)@ == resumed(old(self)@),
            old(self)@.phase == Phase::Stopped ==> r == Err::<(), InvalidTransition>(
                InvalidTransition { phase: Phase::Stopped },
            ) && final(self)@ == old(self)@,
    {
        match self.state {
            Phase::Printing => Ok(()),
            Phase::Paused => {
                self.state = Phase::Printing;
                Ok(())
            },
            Phase::Stopped => Err(InvalidTransition { phase: Phase::Stopped }),
        }
    }

    /// Pauses a printing job; a paused job is left as it is, a stopped machine refuses.
    pub fn pause(&mut self) -> (r: Result<(), InvalidTransition>)
        requires
            old(self).wf(),
        ensures
            final(self).wf(),
            old(self)@.phase != Phase::Stopped ==> r is Ok && final(self)@ == paused(old(self)@),
            old(self)@.phase == Phase::Stopped ==> r == Err::<(), InvalidTransition>(
                InvalidTransition { phase: Phase::Stopped },
            ) && final(self)@ == old(self)@,
    {
        match self.state {
            Phase::Printing => {
                self.state = Phase::Paused;
                Ok(())
            },
            Phase::Paused => Ok(()),
            Phase::Stopped => Err(InvalidTransition { phase: Phase::Stopped }),
        }
    }

    pub fn phase(&self) -> (r: Phase)
        ensures
            r == self@.phase,
    {
        self.state
    }

    pub fn is_printing(&self) -> (r: bool)
        ensures
            r == (self@.phase == Phase::Printing),
    {
        match self.state {
            Phase::Printing => true,
            _ => false,
        }
    }

    /// The queue of the running job. Whoever edits it through the returned
    /// reference must leave it non-empty for the state to stay well formed.
    pub fn printing_state_mut(&mut self) -> (r: &mut PrintingState)
        requires
            old(self).wf(),
            old(self)@.phase != Phase::Stopped,
        ensures
            r.buf@ == old(self)@.pending,
            final(self)@ == (JobModel { phase: old(self)@.phase, pending: final(r).buf@ }),
            final(r).buf@.len() > 0 ==> final(self).wf(),
    {
        self.printing_state.as_mut().unwrap()
    }
}

} // verus!
