//! The hysteresis timer that decides when an utterance has ended.
//!
//! The detector is either active, with no silence under way, or silent since
//! the moment at which the current run of silent chunks began. A silent chunk
//! that arrives more than the pause length after that moment ends the
//! utterance; any chunk that is not silent clears the timer.

use vstd::prelude::*;

verus! {

/// The detector between two chunks. Times are milliseconds on the session's clock.
#[derive(Debug, Clone, Copy, PartialEq, Eq, Structural)]
pub enum DetectorState {
    /// No run of silence is under way.
    Active,
    /// Every chunk since the one heard at this time was silent.
    Silent(u64),
}

impl DetectorState {
    /// Whether a chunk heard at `now` ends the utterance: it is silent, a run
    /// of silence is under way, and the run has lasted longer than the pause.
    pub open spec fn pause_elapsed(self, silent: bool, now: u64, pause_millis: u32) -> bool {
        match self {
            DetectorState::Active => false,
            DetectorState::Silent(since) => silent && now - since > pause_millis,
        }
    }

    /// The state after a chunk heard at `now` that does not end the utterance.
    pub open spec fn after(self, silent: bool, now: u64) -> DetectorState {
        if !silent {
            DetectorState::Active
        } else {
            match self {
                DetectorState::Active => DetectorState::Silent(now),
                DetectorState::Silent(_) => self,
            }
        }
    }

    /// Takes note of one chunk. Returns `None` where the chunk ends the
    /// utterance, and the next state where it does not. A clock that runs
    /// backwards never ends an utterance.
    pub fn observe(self, silent: bool, now: u64, pause_millis: u32) -> (next: Option<DetectorState>)
        ensures
            next == if self.pause_elapsed(silent, now, pause_millis) {
                None
            } else {
                Some(self.after(silent, now))
            },
    {
        if !silent {
            return Some(DetectorState::Active);
        }
        match self {
            DetectorState::Active => Some(DetectorState::Silent(now)),
            DetectorState::Silent(since) => {
                if now > since && now - since > pause_millis as u64 {
                    None
                } else {
                    Some(self)
                }
            },
        }
    }
}

} // verus!
