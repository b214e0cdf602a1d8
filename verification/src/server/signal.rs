//! Signals that tell the daemon to stop.
use vstd::prelude::*;

verus! {

/// Whether the daemon was told to stop before.
#[derive(Debug, Clone, Copy, PartialEq, Eq, Structural)]
pub struct SignalHandler {
    pub force_quit: bool,
}

/// What a signal leads to.
#[derive(Debug, Clone, Copy, PartialEq, Eq, Structural)]
pub enum OnSignal {
    /// The daemon shuts down
    Stop,
    /// The daemon ends at once
    ForceQuit,
}

impl SignalHandler {
    /// The daemon was not told to stop yet.
    pub fn new() -> (s: Self)
        ensures
            !s.force_quit,
    {
        SignalHandler { force_quit: false }
    }

    /// A signal has come. The first shuts the daemon down, and any further one ends it.
    pub fn on_signal(&mut self) -> (r: OnSignal)
        ensures
            final(self).force_quit,
            r == (if old(self).force_quit {
                OnSignal::ForceQuit
            } else {
                OnSignal::Stop
            }),
    {
        if self.force_quit {
            OnSignal::ForceQuit
        } else {
            self.force_quit = true;
            OnSignal::Stop
        }
    }
}

} // verus!
