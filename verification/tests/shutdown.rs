use health_service::shutdown::{is_triggered, shutdown_signal, Signal, Watcher};

const INTERRUPT_LINE: &str = "CTRL+C signal received, app enters graceful shutdown";
const TERMINATE_LINE: &str = "Termination signal received, app enters graceful shutdown";

#[test]
fn interrupt_triggers_a_waiting_watcher() {
    let (state, line) = shutdown_signal(Watcher::Waiting, Signal::Interrupt);
    assert_eq!(state, Watcher::Triggered(Signal::Interrupt));
    assert_eq!(line, Some(INTERRUPT_LINE));
}

#[test]
fn terminate_triggers_a_waiting_watcher() {
    let (state, line) = shutdown_signal(Watcher::Waiting, Signal::Terminate);
    assert_eq!(state, Watcher::Triggered(Signal::Terminate));
    assert_eq!(line, Some(TERMINATE_LINE));
}

#[test]
fn later_signals_are_abandoned() {
    for first in [Signal::Interrupt, Signal::Terminate] {
        for second in [Signal::Interrupt, Signal::Terminate] {
            let (state, line) = shutdown_signal(Watcher::Triggered(first), second);
            assert_eq!(state, Watcher::Triggered(first));
            assert_eq!(line, None);
        }
    }
}

#[test]
fn exactly_one_line_names_the_first_signal() {
    let runs: [&[Signal]; 4] = [
        &[Signal::Interrupt],
        &[Signal::Terminate, Signal::Interrupt],
        &[Signal::Interrupt, Signal::Terminate, Signal::Terminate, Signal::Interrupt],
        &[Signal::Terminate, Signal::Terminate, Signal::Terminate],
    ];
    for run in runs {
        let mut state = Watcher::Waiting;
        let mut lines = Vec::new();
        for signal in run {
            let (next, line) = shutdown_signal(state, *signal);
            state = next;
            lines.extend(line);
        }
        assert_eq!(state, Watcher::Triggered(run[0]));
        let expected = match run[0] {
            Signal::Interrupt => INTERRUPT_LINE,
            Signal::Terminate => TERMINATE_LINE,
        };
        assert_eq!(lines, vec![expected]);
    }
}

#[test]
fn is_triggered_tells_the_states_apart() {
    assert!(!is_triggered(Watcher::Waiting));
    assert!(is_triggered(Watcher::Triggered(Signal::Interrupt)));
    assert!(is_triggered(Watcher::Triggered(Signal::Terminate)));
}
