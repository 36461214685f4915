use crate::action::Action;
use crate::decoder::{decode_all, Instruction};
use crate::executor::{complete_spec, receive_spec, ExecModel, ExecStep};
use crate::state::{model_wf, stopped_model, InvalidTransition, Phase};
use crate::worker::{handle_spec, next_spec, ControlComms, DecoderComms, Dispatch, HandleError, ThreadModel};
use vstd::prelude::*;

verus! {

/// The dispatches of up to `n` successive calls of `next`, up to the first refusal.
pub open spec fn dispatch_run(t: ThreadModel, n: nat) -> Seq<Dispatch>
    decreases n,
{
    if n == 0 {
        Seq::empty()
    } else {
        match next_spec(t).1 {
            Ok(d) => seq![d] + dispatch_run(next_spec(t).0, (n - 1) as nat),
            Err(_) => Seq::empty(),
        }
    }
}

/// The model after `n` successive calls of `next`.
pub open spec fn after_run(t: ThreadModel, n: nat) -> ThreadModel
    decreases n,
{
    if n == 0 {
        t
    } else {
        after_run(next_spec(t).0, (n - 1) as nat)
    }
}

/// The model after a sequence of commands.
pub open spec fn handle_all(t: ThreadModel, msgs: Seq<DecoderComms>) -> ThreadModel
    decreases msgs.len(),
{
    if msgs.len() == 0 {
        t
    } else {
        handle_all(handle_spec(t, msgs[0]).0, msgs.drop_first())
    }
}

/// The dispatches that the executor hands to the motor subsystem, out of `ds`,
/// when the subsystem reports `oks[i]` on `ds[i]`.
pub open spec fn run_executor(m: ExecModel, ds: Seq<Dispatch>, oks: Seq<bool>) -> Seq<Dispatch>
    decreases ds.len(),
{
    if ds.len() == 0 {
        Seq::empty()
    } else {
        let (m1, step) = receive_spec(m, ControlComms::Msg(ds[0]));
        match step {
            ExecStep::Run(_) => seq![ds[0]] + run_executor(
                complete_spec(m1, oks[0]).0,
                ds.drop_first(),
                oks.drop_first(),
            ),
            _ => run_executor(m1, ds.drop_first(), oks.drop_first()),
        }
    }
}

/// Each action tagged with job `job`.
pub open spec fn tagged(job: u64, acts: Seq<Action>) -> Seq<Dispatch> {
    acts.map_values(|a: Action| Dispatch { job, action: a })
}

/// A running job hands out its pending actions, each once and in order, and
/// the machine is stopped after the last.
proof fn lemma_drain(t: ThreadModel)
    requires
        model_wf(t.job),
    ensures
        dispatch_run(t, t.job.pending.len()) == tagged(t.job_id, t.job.pending),
        after_run(t, t.job.pending.len()).job == stopped_model(),
    decreases t.job.pending.len(),
{
    let n = t.job.pending.len();
    if n == 0 {
        assert(tagged(t.job_id, t.job.pending) =~= Seq::empty());
        assert(t.job.pending =~= Seq::empty());
    } else {
        let t1 = next_spec(t).0;
        lemma_drain(t1);
        if n == 1 {
            assert(t1.job.pending.len() == 0);
        } else {
            assert(t1.job.pending =~= t.job.pending.drop_first());
        }
        assert(tagged(t.job_id, t.job.pending) =~= seq![
            Dispatch { job: t.job_id, action: t.job.pending[0] },
        ] + tagged(t1.job_id, t1.job.pending));
    }
}

/// A job submitted to a stopped worker, with no Stop after it, reaches the
/// executor whole: every decoded action exactly once, in decode order, after
/// which the job is complete and no further action is handed out.
pub proof fn job_delivered_in_order(t: ThreadModel, ins: Vec<Instruction>)
    requires
        t.job == stopped_model(),
        decode_all(t.position, ins@) is Ok,
    ensures
        ({
            let acts = decode_all(t.position, ins@)->Ok_0.1;
            let (t1, r) = handle_spec(t, DecoderComms::Print(ins));
            &&& r is Ok
            &&& dispatch_run(t1, acts.len()) == tagged(t1.job_id, acts)
            &&& after_run(t1, acts.len()).job == stopped_model()
            &&& next_spec(after_run(t1, acts.len())).1 is Err
        }),
{
    let acts = decode_all(t.position, ins@)->Ok_0.1;
    let t1 = handle_spec(t, DecoderComms::Print(ins)).0;
    if acts.len() == 0 {
        assert(tagged(t1.job_id, acts) =~= Seq::empty());
    } else {
        assert(t1.job.pending == acts);
    }
    lemma_drain(t1);
}

/// Without a Print command, a stopped worker stays stopped.
proof fn lemma_stays_stopped(t: ThreadModel, msgs: Seq<DecoderComms>)
    requires
        t.job == stopped_model(),
        forall|i: int| 0 <= i < msgs.len() ==> !(msgs[i] is Print),
    ensures
        handle_all(t, msgs).job == stopped_model(),
    decreases msgs.len(),
{
    if msgs.len() > 0 {
        let t1 = handle_spec(t, msgs[0]).0;
        assert(t1.job == stopped_model());
        lemma_stays_stopped(t1, msgs.drop_first());
    }
}

/// Stop, in any phase, empties the queue and stops the machine; from then on
/// Play is refused until a new job is submitted, whatever other commands come.
pub proof fn stop_then_resume_fails(t: ThreadModel, msgs: Seq<DecoderComms>)
    requires
        forall|i: int| 0 <= i < msgs.len() ==> !(msgs[i] is Print),
    ensures
        handle_spec(t, DecoderComms::Stop).0.job == stopped_model(),
        handle_spec(handle_all(handle_spec(t, DecoderComms::Stop).0, msgs), DecoderComms::Play).1
            == Err::<(), HandleError>(HandleError::Transition(InvalidTransition { phase: Phase::Stopped })),
{
    lemma_stays_stopped(handle_spec(t, DecoderComms::Stop).0, msgs);
}

/// Pause then Play leaves a printing job exactly where it was: the next
/// action handed out is the first one not yet handed out.
pub proof fn pause_resume_keeps_place(t: ThreadModel)
    requires
        t.job.phase == Phase::Printing,
    ensures
        ({
            let (t1, r1) = handle_spec(t, DecoderComms::Pause);
            let (t2, r2) = handle_spec(t1, DecoderComms::Play);
            &&& r1 is Ok && r2 is Ok
            &&& t1.job.phase == Phase::Paused
            &&& t2 == t
            &&& next_spec(t2) == next_spec(t)
        }),
{
}

/// Once a job has failed, the executor runs nothing more of it.
proof fn lemma_failed_job_skipped(m: ExecModel, ds: Seq<Dispatch>, oks: Seq<bool>, job: u64)
    requires
        m.failed_job == Some(job),
        forall|i: int| 0 <= i < ds.len() ==> ds[i].job == job,
    ensures
        run_executor(m, ds, oks) == Seq::<Dispatch>::empty(),
    decreases ds.len(),
{
    if ds.len() > 0 {
        lemma_failed_job_skipped(m, ds.drop_first(), oks.drop_first(), job);
    }
}

/// When the motor subsystem fails on action `k` of a job, the actions after it
/// never reach the subsystem, and the fault report stops the worker's job.
pub proof fn motor_failure_ends_job(
    m: ExecModel,
    ds: Seq<Dispatch>,
    oks: Seq<bool>,
    job: u64,
    k: int,
    t: ThreadModel,
)
    requires
        m.failed_job != Some(job),
        m.in_flight is None,
        ds.len() == oks.len(),
        forall|i: int| 0 <= i < ds.len() ==> ds[i].job == job,
        0 <= k < ds.len(),
        forall|i: int| 0 <= i < k ==> oks[i],
        !oks[k],
        model_wf(t.job),
        t.job_id == job,
    ensures
        run_executor(m, ds, oks) == ds.take(k + 1),
        handle_spec(t, DecoderComms::MotorFault { job }).0.job == stopped_model(),
    decreases k,
{
    let (m1, _) = receive_spec(m, ControlComms::Msg(ds[0]));
    let m2 = complete_spec(m1, oks[0]).0;
    if k == 0 {
        lemma_failed_job_skipped(m2, ds.drop_first(), oks.drop_first(), job);
        assert(ds.take(1) =~= seq![ds[0]]);
    } else {
        motor_failure_ends_job(m2, ds.drop_first(), oks.drop_first(), job, k - 1, t);
        assert(ds.take(k + 1) =~= seq![ds[0]] + ds.drop_first().take(k));
    }
    if t.job.phase == Phase::Stopped {
        assert(t.job.pending =~= Seq::empty());
    }
}

} // verus!
