use vstd::prelude::*;

verus! {

/// Milliseconds between two sweeps of the session registry.
pub const LOOP_SLEEP_MILLIS: u64 = 1000;

/// State of the background expiry sweeper.
#[derive(Clone, Copy, Debug, PartialEq, Eq, Structural)]
pub struct SweeperState {
    /// The loop was started and has not exited.
    pub running: bool,
    /// A stop was asked for and the loop has not yet seen it.
    pub stop_requested: bool,
    /// Sweeps done since the loop started.
    pub ticks: u64,
}

/// What happens to the sweeper.
#[derive(Clone, Copy, Debug, PartialEq, Eq, Structural)]
pub enum SweeperEvent {
    /// Someone asks for the sweeper to run.
    Start,
    /// The loop wakes up for its next round.
    Tick,
    /// Someone asks the loop to end.
    Stop,
}

/// What the caller does next.
#[derive(Clone, Copy, Debug, PartialEq, Eq, Structural)]
pub enum SweeperAction {
    /// Start the loop on a thread of its own.
    SpawnLoop,
    /// Sweep the registry at the current time, then sleep one tick.
    Sweep,
    /// Leave the loop; whoever asked for the stop joins the thread.
    Exit,
    /// Send the stop signal to the loop and wait for it to end.
    SignalAndJoin,
    /// Nothing to do.
    Idle,
}

impl SweeperState {
    /// A sweeper that has not been started.
    pub fn new() -> (r: SweeperState)
        ensures
            r == (SweeperState { running: false, stop_requested: false, ticks: 0 }),
    {
        SweeperState { running: false, stop_requested: false, ticks: 0 }
    }

    /// The next state and action on `event`. Starting is idempotent: a
    /// running sweeper is not started twice. The loop checks for a stop once
    /// per round, so a stop takes effect by the next tick.
    pub fn next(self, event: SweeperEvent) -> (r: (SweeperState, SweeperAction))
        ensures
            event == SweeperEvent::Start ==> r == (if self.running {
                (self, SweeperAction::Idle)
            } else {
                (SweeperState { running: true, stop_requested: false, ticks: 0 }, SweeperAction::SpawnLoop)
            }),
            event == SweeperEvent::Tick ==> r == (if !self.running {
                (self, SweeperAction::Idle)
            } else if self.stop_requested {
                (SweeperState { running: false, stop_requested: false, ..self }, SweeperAction::Exit)
            } else {
                (SweeperState { ticks: if self.ticks < u64::MAX { (self.ticks + 1) as u64 } else { self.ticks }, ..self }, SweeperAction::Sweep)
            }),
            event == SweeperEvent::Stop ==> r == (if self.running {
                (SweeperState { stop_requested: true, ..self }, SweeperAction::SignalAndJoin)
            } else {
                (self, SweeperAction::Idle)
            }),
    {
        match event {
            SweeperEvent::Start => {
                if self.running {
                    (self, SweeperAction::Idle)
                } else {
                    (SweeperState { running: true, stop_requested: false, ticks: 0 }, SweeperAction::SpawnLoop)
                }
            },
            SweeperEvent::Tick => {
                if !self.running {
                    (self, SweeperAction::Idle)
                } else if self.stop_requested {
                    (SweeperState { running: false, stop_requested: false, ..self }, SweeperAction::Exit)
                } else {
                    let ticks = if self.ticks < u64::MAX {
                        self.ticks + 1
                    } else {
                        self.ticks
                    };
                    (SweeperState { ticks, ..self }, SweeperAction::Sweep)
                }
            },
            SweeperEvent::Stop => {
                if self.running {
                    (SweeperState { stop_requested: true, ..self }, SweeperAction::SignalAndJoin)
                } else {
                    (self, SweeperAction::Idle)
                }
            },
        }
    }
}

} // verus!
