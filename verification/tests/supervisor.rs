use norgopolis_module::supervisor::decide_window;
use norgopolis_module::supervisor::exit_window;
use norgopolis_module::supervisor::IdleDecision;
use norgopolis_module::supervisor::IdleSupervisor;

#[test]
fn a_silent_window_decides_exit() {
    // No invocation before the countdown elapsed: the process must end.
    let (mut supervisor, _tx) = IdleSupervisor::new();
    let (saw_signal, decision) = supervisor.check();
    assert!(!saw_signal);
    assert_eq!(decision, IdleDecision::Exit);
}

#[test]
fn a_live_window_decides_continue() {
    // One invocation arrived before the countdown elapsed: keep running.
    let (mut supervisor, tx) = IdleSupervisor::new();
    tx.send(()).unwrap();
    let (saw_signal, decision) = supervisor.check();
    assert!(saw_signal);
    assert_eq!(decision, IdleDecision::Continue);
}

#[test]
fn a_live_window_drains_the_queue_and_rearms() {
    // Three invocations in the first window; none in the second. The first
    // check continues and empties the queue, so the second window stands on
    // its own and exits: the guarantee does not lapse after one window.
    let (mut supervisor, tx) = IdleSupervisor::new();
    tx.send(()).unwrap();
    tx.send(()).unwrap();
    tx.send(()).unwrap();

    let (_, first) = supervisor.check();
    assert_eq!(first, IdleDecision::Continue);

    let (saw_signal, second) = supervisor.check();
    assert!(!saw_signal);
    assert_eq!(second, IdleDecision::Exit);
}

#[test]
fn steady_activity_keeps_the_process_alive_window_after_window() {
    let (mut supervisor, tx) = IdleSupervisor::new();
    for _ in 0..4 {
        tx.send(()).unwrap();
        let (_, decision) = supervisor.check();
        assert_eq!(decision, IdleDecision::Continue);
    }
}

#[test]
fn the_policy_is_exactly_silent_exits_live_continues() {
    assert_eq!(decide_window(false), IdleDecision::Exit);
    assert_eq!(decide_window(true), IdleDecision::Continue);
}

#[test]
fn exit_window_is_the_first_silent_one() {
    // T = 2s and nothing ever sent: the process exits at the end of the
    // first window, about t = 2s.
    assert_eq!(exit_window(&vec![false]), Some(0));
    // T = 2s, one invocation at t = 1s: still running at t = 2.5s; with the
    // recurring re-arm policy a silent second window exits at about t = 4s.
    assert_eq!(exit_window(&vec![true, false]), Some(1));
    assert_eq!(exit_window(&vec![true, true, false, false]), Some(2));
}

#[test]
fn a_run_with_activity_in_every_window_never_exits() {
    assert_eq!(exit_window(&vec![]), None);
    assert_eq!(exit_window(&vec![true, true, true]), None);
}
