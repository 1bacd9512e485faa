//! The shutdown watcher: the first stop signal to arrive triggers the
//! graceful drain, every later one is abandoned.

use vstd::prelude::*;

verus! {

/// A signal that asks the service to stop.
#[derive(Clone, Copy, Debug, PartialEq, Eq, Structural)]
pub enum Signal {
    /// The operator's interrupt (CTRL+C).
    Interrupt,
    /// The platform's termination request.
    Terminate,
}

/// State of the watcher. `Triggered` is terminal and remembers the winner.
#[derive(Clone, Copy, Debug, PartialEq, Eq, Structural)]
pub enum Watcher {
    Waiting,
    Triggered(Signal),
}

/// The log line that names the signal which started the shutdown.
pub open spec fn announcement(signal: Signal) -> Seq<char> {
    match signal {
        Signal::Interrupt => "CTRL+C signal received, app enters graceful shutdown"@,
        Signal::Terminate => "Termination signal received, app enters graceful shutdown"@,
    }
}

/// The watcher's state after `signal` arrived in `state`.
pub open spec fn after_signal(state: Watcher, signal: Signal) -> Watcher {
    match state {
        Watcher::Waiting => Watcher::Triggered(signal),
        Watcher::Triggered(_) => state,
    }
}

/// The watcher's state after all of `signals` arrived, in order.
pub open spec fn after_signals(state: Watcher, signals: Seq<Signal>) -> Watcher
    decreases signals.len(),
{
    if signals.len() == 0 {
        state
    } else {
        after_signal(after_signals(state, signals.drop_last()), signals.last())
    }
}

/// The log lines written while all of `signals` arrived, in order.
pub open spec fn announcements(state: Watcher, signals: Seq<Signal>) -> Seq<Seq<char>>
    decreases signals.len(),
{
    if signals.len() == 0 {
        Seq::empty()
    } else {
        let earlier = announcements(state, signals.drop_last());
        if after_signals(state, signals.drop_last()) is Waiting {
            earlier.push(announcement(signals.last()))
        } else {
            earlier
        }
    }
}

/// Handles one signal: the next state, and the line to log if this signal is
/// the one that triggers the shutdown.
pub fn shutdown_signal(state: Watcher, signal: Signal) -> (r: (Watcher, Option<&'static str>))
    ensures
        r.0 == after_signal(state, signal),
        r.1 is Some <==> state is Waiting,
        r.1 matches Some(line) ==> line@ == announcement(signal),
{
    match state {
        Watcher::Waiting => {
            let line = match signal {
                Signal::Interrupt => "CTRL+C signal received, app enters graceful shutdown",
                Signal::Terminate => "Termination signal received, app enters graceful shutdown",
            };
            (Watcher::Triggered(signal), Some(line))
        },
        Watcher::Triggered(_) => (state, None),
    }
}

/// Whether the shutdown future has resolved.
pub fn is_triggered(state: Watcher) -> (b: bool)
    ensures
        b == (state is Triggered),
{
    match state {
        Watcher::Waiting => false,
        Watcher::Triggered(_) => true,
    }
}

/// A triggered watcher never changes again and never logs again.
pub proof fn lemma_triggered_is_terminal(first: Signal, signals: Seq<Signal>)
    ensures
        after_signals(Watcher::Triggered(first), signals) == Watcher::Triggered(first),
        announcements(Watcher::Triggered(first), signals) == Seq::<Seq<char>>::empty(),
    decreases signals.len(),
{
    if signals.len() > 0 {
        lemma_triggered_is_terminal(first, signals.drop_last());
    }
}

/// Whichever signal arrives first wins: however many follow, a waiting
/// watcher ends triggered by the first one, and exactly one line was logged,
/// the one that names it.
pub proof fn lemma_first_signal_wins(signals: Seq<Signal>)
    requires
        signals.len() > 0,
    ensures
        after_signals(Watcher::Waiting, signals) == Watcher::Triggered(signals[0]),
        announcements(Watcher::Waiting, signals) == seq![announcement(signals[0])],
    decreases signals.len(),
{
    if signals.len() == 1 {
        assert(signals.drop_last().len() == 0);
        assert(after_signals(Watcher::Waiting, signals.drop_last()) == Watcher::Waiting);
        assert(announcements(Watcher::Waiting, signals.drop_last()) == Seq::<Seq<char>>::empty());
        assert(announcements(Watcher::Waiting, signals) =~= seq![announcement(signals[0])]);
    } else {
        lemma_first_signal_wins(signals.drop_last());
        assert(signals.drop_last()[0] == signals[0]);
    }
}

} // verus!
