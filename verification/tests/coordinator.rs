use core::time::Duration;

use norgopolis_module::supervisor::IdleDecision;
use norgopolis_module::Invocation;
use norgopolis_module::Module;

struct StubHandler;

#[test]
fn prepare_wires_the_dispatcher_to_the_supervisor() {
    let module = Module::new().timeout(Duration::from_secs(2));
    let (invoker, mut supervisor, timeout) = module.prepare(StubHandler);
    assert_eq!(timeout, Duration::from_secs(2));

    // A heartbeat emitted by the dispatcher is the one the supervisor sees.
    let _ = invoker.accept(Invocation::new(String::from("f"), None));
    let (saw_signal, decision) = supervisor.check();
    assert!(saw_signal);
    assert_eq!(decision, IdleDecision::Continue);
}

#[test]
fn prepare_without_traffic_leaves_a_silent_first_window() {
    let (_invoker, mut supervisor, _timeout) = Module::new().prepare(StubHandler);
    let (saw_signal, decision) = supervisor.check();
    assert!(!saw_signal);
    assert_eq!(decision, IdleDecision::Exit);
}
