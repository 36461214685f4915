use printer_core::action::Action;
use printer_core::decoder::{DecodeError, Decoder, Instruction};
use printer_core::executor::{ExecStep, Executor, MotorError};
use printer_core::state::{InvalidTransition, Phase, State};
use printer_core::worker::{
    ControlComms, DecoderComms, DecoderThread, Dispatch, HandleError, ACTION_CHANNEL_CAPACITY,
};
use std::collections::VecDeque;

fn ins(code: u32, arg: i64) -> Instruction {
    Instruction { code, arg }
}

fn thread() -> DecoderThread {
    DecoderThread::new(Decoder::new())
}

fn stopped_err() -> HandleError {
    HandleError::Transition(InvalidTransition { phase: Phase::Stopped })
}

#[test]
fn three_actions_dispatched_in_order_then_stopped() {
    let mut t = thread();
    let job = vec![ins(1, 10), ins(1, 30), ins(4, 5)];
    assert_eq!(t.handle_msg(DecoderComms::Print(job)), Ok(()));
    assert!(t.state.is_printing());
    let a1 = t.next().unwrap();
    let a2 = t.next().unwrap();
    assert_eq!(t.state.phase(), Phase::Printing);
    let a3 = t.next().unwrap();
    assert_eq!(a1, Dispatch { job: 1, action: Action::Move { steps: 10 } });
    assert_eq!(a2, Dispatch { job: 1, action: Action::Move { steps: 20 } });
    assert_eq!(a3, Dispatch { job: 1, action: Action::Dwell { millis: 5 } });
    assert_eq!(t.state.phase(), Phase::Stopped);
    assert_eq!(t.next(), Err(InvalidTransition { phase: Phase::Stopped }));
    assert_eq!(t.handle_msg(DecoderComms::Play), Err(stopped_err()));
}

#[test]
fn pause_after_first_action_resumes_with_second() {
    let mut t = thread();
    assert_eq!(t.handle_msg(DecoderComms::Print(vec![ins(1, 3), ins(1, 1)])), Ok(()));
    assert_eq!(t.next().unwrap().action, Action::Move { steps: 3 });
    assert_eq!(t.handle_msg(DecoderComms::Pause), Ok(()));
    assert_eq!(t.state.phase(), Phase::Paused);
    assert!(!t.state.is_printing());
    assert_eq!(t.handle_msg(DecoderComms::Play), Ok(()));
    assert_eq!(t.state.phase(), Phase::Printing);
    assert_eq!(t.next().unwrap().action, Action::Move { steps: -2 });
    assert_eq!(t.state.phase(), Phase::Stopped);
}

#[test]
fn long_job_delivered_whole_and_once() {
    let mut t = thread();
    let mut job = Vec::new();
    for i in 1..=40i64 {
        job.push(ins(1, i * i));
    }
    assert_eq!(t.handle_msg(DecoderComms::Print(job)), Ok(()));
    let mut got = Vec::new();
    while t.state.is_printing() {
        got.push(t.next().unwrap());
    }
    assert_eq!(got.len(), 40);
    for (k, d) in got.iter().enumerate() {
        let i = k as i64 + 1;
        let prev = i - 1;
        assert_eq!(d.job, 1);
        assert_eq!(d.action, Action::Move { steps: i * i - prev * prev });
    }
}

#[test]
fn stop_clears_queue_and_play_fails_until_new_job() {
    let mut t = thread();
    assert_eq!(t.handle_msg(DecoderComms::Print(vec![ins(1, 5), ins(1, 6), ins(1, 7)])), Ok(()));
    t.next().unwrap();
    assert_eq!(t.handle_msg(DecoderComms::Stop), Ok(()));
    assert_eq!(t.state.phase(), Phase::Stopped);
    assert_eq!(t.decoder.position(), 0);
    assert_eq!(t.handle_msg(DecoderComms::Pause), Err(stopped_err()));
    assert_eq!(t.handle_msg(DecoderComms::Stop), Ok(()));
    assert_eq!(t.handle_msg(DecoderComms::Play), Err(stopped_err()));
    assert_eq!(t.next(), Err(InvalidTransition { phase: Phase::Stopped }));
    assert_eq!(t.handle_msg(DecoderComms::Print(vec![ins(1, 2)])), Ok(()));
    assert_eq!(t.handle_msg(DecoderComms::Play), Ok(()));
    assert_eq!(t.next(), Ok(Dispatch { job: 2, action: Action::Move { steps: 2 } }));
}

#[test]
fn stop_while_paused() {
    let mut t = thread();
    assert_eq!(t.handle_msg(DecoderComms::Print(vec![ins(4, 1), ins(4, 2)])), Ok(()));
    assert_eq!(t.handle_msg(DecoderComms::Pause), Ok(()));
    assert_eq!(t.handle_msg(DecoderComms::Pause), Ok(()));
    assert_eq!(t.handle_msg(DecoderComms::Stop), Ok(()));
    assert_eq!(t.state.phase(), Phase::Stopped);
    assert_eq!(t.handle_msg(DecoderComms::Play), Err(stopped_err()));
}

#[test]
fn print_refused_while_printing_or_paused() {
    let mut t = thread();
    assert_eq!(t.handle_msg(DecoderComms::Print(vec![ins(1, 4), ins(1, 8)])), Ok(()));
    assert_eq!(
        t.handle_msg(DecoderComms::Print(vec![ins(1, 100)])),
        Err(HandleError::Transition(InvalidTransition { phase: Phase::Printing }))
    );
    assert_eq!(t.decoder.position(), 8);
    assert_eq!(t.handle_msg(DecoderComms::Pause), Ok(()));
    assert_eq!(
        t.handle_msg(DecoderComms::Print(vec![ins(1, 100)])),
        Err(HandleError::Transition(InvalidTransition { phase: Phase::Paused }))
    );
    assert_eq!(t.handle_msg(DecoderComms::Play), Ok(()));
    assert_eq!(t.next().unwrap().action, Action::Move { steps: 4 });
}

#[test]
fn decode_error_keeps_worker_stopped_and_position() {
    let mut t = thread();
    assert_eq!(t.handle_msg(DecoderComms::Print(vec![ins(92, 50)])), Ok(()));
    assert_eq!(t.state.phase(), Phase::Stopped);
    assert_eq!(t.decoder.position(), 50);
    assert_eq!(
        t.handle_msg(DecoderComms::Print(vec![ins(1, 60), ins(28, 0), ins(1, 70)])),
        Err(HandleError::Decode(DecodeError::Unsupported { code: 28 }))
    );
    assert_eq!(t.state.phase(), Phase::Stopped);
    assert_eq!(t.decoder.position(), 50);
    assert_eq!(t.handle_msg(DecoderComms::Print(vec![ins(1, 60)])), Ok(()));
    assert_eq!(t.next().unwrap(), Dispatch { job: 2, action: Action::Move { steps: 10 } });
}

#[test]
fn empty_job_completes_at_once() {
    let mut t = thread();
    assert_eq!(t.handle_msg(DecoderComms::Print(Vec::new())), Ok(()));
    assert_eq!(t.state.phase(), Phase::Stopped);
    assert_eq!(t.job, 1);
    assert_eq!(t.handle_msg(DecoderComms::Play), Err(stopped_err()));
}

#[test]
fn decoder_errors() {
    let mut d = Decoder::new();
    assert_eq!(d.decode(&ins(4, -1)), Err(DecodeError::InvalidArgument { code: 4 }));
    assert_eq!(d.decode(&ins(3, 0)), Err(DecodeError::Unsupported { code: 3 }));
    assert_eq!(d.decode(&ins(92, i64::MIN)), Ok(Vec::new()));
    assert_eq!(d.decode(&ins(1, i64::MAX)), Err(DecodeError::OutOfRange { code: 1 }));
    assert_eq!(d.position(), i64::MIN);
    assert_eq!(d.decode(&ins(0, -1)), Ok(vec![Action::Move { steps: i64::MAX }]));
    assert_eq!(d.position(), -1);
}

#[test]
fn decoder_tracks_position() {
    let mut d = Decoder::new();
    assert_eq!(d.decode(&ins(0, 7)), Ok(vec![Action::Move { steps: 7 }]));
    assert_eq!(d.decode(&ins(1, 7)), Ok(Vec::new()));
    assert_eq!(d.decode(&ins(4, 0)), Ok(vec![Action::Dwell { millis: 0 }]));
    assert_eq!(d.decode(&ins(1, -3)), Ok(vec![Action::Move { steps: -10 }]));
    assert_eq!(d.position(), -3);
    d.reset();
    assert_eq!(d.position(), 0);
}

#[test]
fn motor_failure_skips_rest_of_job() {
    let mut e = Executor::new();
    let d = |k: i64| Dispatch { job: 3, action: Action::Move { steps: k } };
    assert_eq!(e.receive(ControlComms::Msg(d(1))), ExecStep::Run(Action::Move { steps: 1 }));
    assert_eq!(e.in_flight(), Some(3));
    assert_eq!(e.complete(true), Ok(()));
    assert_eq!(e.in_flight(), None);
    assert_eq!(e.receive(ControlComms::Msg(d(2))), ExecStep::Run(Action::Move { steps: 2 }));
    assert_eq!(e.complete(false), Err(MotorError { job: 3 }));
    assert_eq!(e.receive(ControlComms::Msg(d(3))), ExecStep::Skip);
    assert_eq!(e.receive(ControlComms::Msg(d(4))), ExecStep::Skip);
    let next_job = Dispatch { job: 4, action: Action::Dwell { millis: 9 } };
    assert_eq!(e.receive(ControlComms::Msg(next_job)), ExecStep::Run(Action::Dwell { millis: 9 }));
    assert_eq!(e.complete(true), Ok(()));
    assert_eq!(e.receive(ControlComms::Exit), ExecStep::Exit);
}

#[test]
fn motor_fault_stops_current_job_only() {
    let mut t = thread();
    assert_eq!(t.handle_msg(DecoderComms::Print(vec![ins(1, 1), ins(1, 2)])), Ok(()));
    assert_eq!(t.handle_msg(DecoderComms::MotorFault { job: 0 }), Ok(()));
    assert_eq!(t.state.phase(), Phase::Printing);
    assert_eq!(t.handle_msg(DecoderComms::MotorFault { job: 1 }), Ok(()));
    assert_eq!(t.state.phase(), Phase::Stopped);
    assert_eq!(t.decoder.position(), 0);
    assert_eq!(t.next(), Err(InvalidTransition { phase: Phase::Stopped }));
}

#[test]
fn control_exit_ends_worker() {
    let mut t = thread();
    assert_eq!(t.handle_control(ControlComms::Msg(DecoderComms::Print(vec![ins(1, 1)]))), Some(Ok(())));
    assert_eq!(t.handle_control(ControlComms::Exit), None);
    assert!(t.state.is_printing());
    assert_eq!(t.handle_control(ControlComms::Msg(DecoderComms::Pause)), Some(Ok(())));
    assert_eq!(t.state.phase(), Phase::Paused);
}

#[test]
fn state_machine_transitions() {
    let mut s = State::new();
    assert_eq!(s.phase(), Phase::Stopped);
    assert_eq!(s.play(), Err(InvalidTransition { phase: Phase::Stopped }));
    assert_eq!(s.pause(), Err(InvalidTransition { phase: Phase::Stopped }));
    let mut q = VecDeque::new();
    q.push_back(Action::Dwell { millis: 1 });
    q.push_back(Action::Dwell { millis: 2 });
    assert_eq!(s.print(q.clone()), Ok(()));
    assert!(s.is_printing());
    assert_eq!(s.print(q), Err(InvalidTransition { phase: Phase::Printing }));
    assert_eq!(s.play(), Ok(()));
    assert_eq!(s.phase(), Phase::Printing);
    assert_eq!(s.pause(), Ok(()));
    assert_eq!(s.pause(), Ok(()));
    assert_eq!(s.phase(), Phase::Paused);
    assert_eq!(s.printing_state_mut().buf.len(), 2);
    assert_eq!(s.printing_state_mut().buf[1], Action::Dwell { millis: 2 });
    s.stop();
    s.stop();
    assert_eq!(s.phase(), Phase::Stopped);
    assert_eq!(s.print(VecDeque::new()), Ok(()));
    assert_eq!(s.phase(), Phase::Stopped);
}

#[test]
fn action_channel_blocks_when_full() {
    assert_eq!(ACTION_CHANNEL_CAPACITY, 16);
    let (tx, rx) = crossbeam::channel::bounded::<u32>(ACTION_CHANNEL_CAPACITY);
    for i in 0..ACTION_CHANNEL_CAPACITY as u32 {
        assert!(tx.try_send(i).is_ok());
    }
    assert!(tx.try_send(99).is_err());
    assert_eq!(rx.recv().unwrap(), 0);
    assert!(tx.try_send(99).is_ok());
}
