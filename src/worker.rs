use crate::action::Action;
use crate::decoder::{decode_all, DecodeError, Decoder, Instruction};
use crate::state::{
    dequeued, paused, resumed, started, stopped_model, InvalidTransition, JobModel, Phase, State,
};
use std::collections::VecDeque;
use vstd::prelude::*;

verus! {

/// How many dispatched actions may wait between the decoder and the executor.
/// Once that many wait, handing over the next one blocks the decoder worker.
pub const ACTION_CHANNEL_CAPACITY: usize = 16;

/// What travels on every channel between the workers: a message, or the
/// signal to shut down.
pub enum ControlComms<T> {
    Msg(T),
    Exit,
}

/// The commands that the decoder worker takes.
pub enum DecoderComms {
    /// Decode a whole job and start printing it.
    Print(Vec<Instruction>),
    /// Drop the job and the decoder's position.
    Stop,
    /// Resume a paused job.
    Play,
    /// Pause a printing job.
    Pause,
    /// The motor subsystem failed on an action of job `job`.
    MotorFault { job: u64 },
}

/// Why the decoder worker refused a command. The worker goes on either way.
#[derive(Clone, Copy, Debug, PartialEq, Eq, Structural)]
pub enum HandleError {
    Decode(DecodeError),
    Transition(InvalidTransition),
}

/// An action on its way to the executor, tagged with the job it belongs to.
#[derive(Clone, Copy, Debug, PartialEq, Eq, Structural)]
pub struct Dispatch {
    pub job: u64,
    pub action: Action,
}

/// The decoder worker's data: the job's state machine, the decoder engine,
/// and the number of the latest job started.
pub struct DecoderThread {
    pub decoder: Decoder,
    pub state: State,
    pub job: u64,
}

/// What a `DecoderThread` stands for.
pub struct ThreadModel {
    pub job: JobModel,
    pub position: int,
    pub job_id: u64,
}

/// The number given to the job after `j`.
pub open spec fn next_job_id(j: u64) -> u64 {
    if j == u64::MAX {
        0
    } else {
        (j + 1) as u64
    }
}

/// The result of one command, and the model after it.
pub open spec fn handle_spec(t: ThreadModel, msg: DecoderComms) -> (ThreadModel, Result<(), HandleError>) {
    match msg {
        DecoderComms::Print(ins) => if t.job.phase != Phase::Stopped {
            (t, Err(HandleError::Transition(InvalidTransition { phase: t.job.phase })))
        } else {
            match decode_all(t.position, ins@) {
                Err(e) => (t, Err(HandleError::Decode(e))),
                Ok((p, acts)) => (
                    ThreadModel { job: started(acts), position: p, job_id: next_job_id(t.job_id) },
                    Ok(()),
                ),
            }
        },
        DecoderComms::Stop => (
            ThreadModel { job: stopped_model(), position: 0, job_id: t.job_id },
            Ok(()),
        ),
        DecoderComms::Play => if t.job.phase == Phase::Stopped {
            (t, Err(HandleError::Transition(InvalidTransition { phase: Phase::Stopped })))
        } else {
            (ThreadModel { job: resumed(t.job), ..t }, Ok(()))
        },
        DecoderComms::Pause => if t.job.phase == Phase::Stopped {
            (t, Err(HandleError::Transition(InvalidTransition { phase: Phase::Stopped })))
        } else {
            (ThreadModel { job: paused(t.job), ..t }, Ok(()))
        },
        DecoderComms::MotorFault { job } => if job == t.job_id && t.job.phase != Phase::Stopped {
            (ThreadModel { job: stopped_model(), position: 0, job_id: t.job_id }, Ok(()))
        } else {
            (t, Ok(()))
        },
    }
}

/// The action handed out next, and the model after it.
pub open spec fn next_spec(t: ThreadModel) -> (ThreadModel, Result<Dispatch, InvalidTransition>) {
    if t.job.phase == Phase::Stopped {
        (t, Err(InvalidTransition { phase: Phase::Stopped }))
    } else {
        (
            ThreadModel { job: dequeued(t.job), ..t },
            Ok(Dispatch { job: t.job_id, action: t.job.pending[0] }),
        )
    }
}

/// An error met while decoding part of a stream is the error of the whole stream.
proof fn lemma_decode_all_err_extends(position: int, s: Seq<Instruction>, i: int)
    requires
        0 <= i <= s.len(),
        decode_all(position, s.take(i)) is Err,
    ensures
        decode_all(position, s) == decode_all(position, s.take(i)),
    decreases s.len() - i,
{
    if i < s.len() {
        assert(s.take(i + 1).drop_last() =~= s.take(i));
        lemma_decode_all_err_extends(position, s, i + 1);
    } else {
        assert(s.take(i) =~= s);
    }
}

impl View for DecoderThread {
    type V = ThreadModel;

    open spec fn view(&self) -> ThreadModel {
        ThreadModel { job: self.state@, position: self.decoder@, job_id: self.job }
    }
}

impl DecoderThread {
    pub open spec fn wf(&self) -> bool {
        self.state.wf()
    }

    pub fn new(decoder: Decoder) -> (r: DecoderThread)
        ensures
            r.wf(),
            r@ == (ThreadModel { job: stopped_model(), position: decoder@, job_id: 0 }),
    {
        DecoderThread { decoder, state: State::new(), job: 0 }
    }

    /// Decodes `ins` from the current position. Nothing changes when it fails.
    fn decode_job(&self, ins: &Vec<Instruction>) -> (r: Result<(Decoder, VecDeque<Action>), DecodeError>)
        ensures
            match decode_all(self.decoder@, ins@) {
                Ok((p, acts)) => r is Ok && r->Ok_0.0@ == p && r->Ok_0.1@ == acts,
                Err(e) => r == Err::<(Decoder, VecDeque<Action>), DecodeError>(e),
            },
    {
        let mut d = self.decoder;
        let mut actions: VecDeque<Action> = VecDeque::new();
        let mut i: usize = 0;
        while i < ins.len()
            invariant
                i <= ins.len(),
                decode_all(self.decoder@, ins@.take(i as int)) == Ok::<(int, Seq<Action>), DecodeError>(
                    (d@, actions@),
                ),
            decreases ins.len() - i,
        {
            assert(ins@.take(i + 1).drop_last() =~= ins@.take(i as int));
            let step = d.decode(&ins[i]);
            match step {
                Err(e) => {
                    proof {
                        lemma_decode_all_err_extends(self.decoder@, ins@, i + 1);
                    }
                    return Err(e);
                },
                Ok(more) => {
                    let ghost before = actions@;
                    let mut j: usize = 0;
                    while j < more.len()
                        invariant
                            j <= more.len(),
                            actions@ == before + more@.take(j as int),
                        decreases more.len() - j,
                    {
                        actions.push_back(more[j]);
                        assert(more@.take(j + 1) =~= more@.take(j as int).push(more@[j as int]));
                        j += 1;
                    }
                    assert(more@.take(more.len() as int) =~= more@);
                },
            }
            i += 1;
        }
        assert(ins@.take(ins.len() as int) =~= ins@);
        Ok((d, actions))
    }

    /// Applies one command. A refused command leaves everything as it was.
    pub fn handle_msg(&mut self, msg: DecoderComms) -> (r: Result<(), HandleError>)
        requires
            old(self).wf(),
        ensures
            final(self).wf(),
            (final(self)@, r) == handle_spec(old(self)@, msg),
    {
        match msg {
            DecoderComms::Print(ins) => {
                let phase = self.state.phase();
                if phase != Phase::Stopped {
                    return Err(HandleError::Transition(InvalidTransition { phase }));
                }
                match self.decode_job(&ins) {
                    Err(e) => Err(HandleError::Decode(e)),
                    Ok((d, actions)) => {
                        self.decoder = d;
                        self.job = if self.job == u64::MAX { 0 } else { self.job + 1 };
                        let _ = self.state.print(actions);
                        Ok(())
                    },
                }
            },
            DecoderComms::Stop => {
                self.state.stop();
                self.decoder.reset();
                Ok(())
            },
            DecoderComms::Play => match self.state.play() {
                Ok(()) => Ok(()),
                Err(e) => Err(HandleError::Transition(e)),
            },
            DecoderComms::Pause => match self.state.pause() {
                Ok(()) => Ok(()),
                Err(e) => Err(HandleError::Transition(e)),
            },
            DecoderComms::MotorFault { job } => {
                if job == self.job && self.state.phase() != Phase::Stopped {
                    self.state.stop();
                    self.decoder.reset();
                }
                Ok(())
            },
        }
    }

    /// Takes the next action of the job, tagged with the job's number. The job
    /// is complete, and the machine stopped, once its last action is taken.
    pub fn next(&mut self) -> (r: Result<Dispatch, InvalidTransition>)
        requires
            old(self).wf(),
        ensures
            final(self).wf(),
            (final(self)@, r) == next_spec(old(self)@),
    {
        if self.state.phase() == Phase::Stopped {
            return Err(InvalidTransition { phase: Phase::Stopped });
        }
        let job = self.job;
        let print_state = self.state.printing_state_mut();
        let head = print_state.buf.pop_front();
        let action = head.unwrap();
        let now_empty = print_state.buf.len() == 0;
        if now_empty {
            self.state.stop();
        }
        Ok(Dispatch { job, action })
    }

    /// Applies one message of the control channel; `None` when it asks the
    /// worker to shut down, which ends its loop.
    pub fn handle_control(&mut self, c: ControlComms<DecoderComms>) -> (r: Option<Result<(), HandleError>>)
        requires
            old(self).wf(),
        ensures
            final(self).wf(),
            match c {
                ControlComms::Msg(m) => {
                    let (t, res) = handle_spec(old(self)@, m);
                    r == Some(res) && final(self)@ == t
                },
                ControlComms::Exit => r is None && final(self)@ == old(self)@,
            },
    {
        match c {
            ControlComms::Msg(m) => Some(self.handle_msg(m)),
            ControlComms::Exit => None,
        }
    }
}

} // verus!
