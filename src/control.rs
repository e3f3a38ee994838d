use vstd::prelude::*;

verus! {

/// Seconds the pause gate sleeps before it looks at the flag again.
pub const PAUSE_POLL_SECS: u64 = 3;

/// The three control signals that an outside controller sets and the pipeline reads.
#[derive(Clone, Copy, Debug, PartialEq, Eq)]
pub struct ControlState {
    pub restart: bool,
    pub paused: bool,
    pub worker_count: u32,
}

impl ControlState {
    /// Restart cleared, not paused, three workers.
    pub fn new() -> (r: ControlState)
        ensures
            r.restart == false,
            r.paused == false,
            r.worker_count == 3,
    {
        ControlState { restart: false, paused: false, worker_count: 3 }
    }

    /// Raises the restart signal.
    pub fn request_restart(&mut self)
        ensures
            *final(self) == (ControlState { restart: true, ..*old(self) }),
    {
        self.restart = true;
    }

    /// Whether a restart is pending, without clearing it.
    pub fn restart_pending(&self) -> (r: bool)
        ensures
            r == self.restart,
    {
        self.restart
    }

    /// Check-and-reset of the restart signal: reports whether it was raised and lowers it.
    pub fn consume_restart(&mut self) -> (r: bool)
        ensures
            r == old(self).restart,
            *final(self) == consumed(*old(self)),
    {
        let was = self.restart;
        if was {
            self.restart = false;
        }
        was
    }

    pub fn set_paused(&mut self, paused: bool)
        ensures
            *final(self) == (ControlState { paused: paused, ..*old(self) }),
    {
        self.paused = paused;
    }

    pub fn is_paused(&self) -> (r: bool)
        ensures
            r == self.paused,
    {
        self.paused
    }

    /// Takes effect at the next batch boundary: the drainer reads it once per batch.
    pub fn set_worker_count(&mut self, n: u32)
        ensures
            *final(self) == (ControlState { worker_count: n, ..*old(self) }),
    {
        self.worker_count = n;
    }

    pub fn worker_count(&self) -> (r: u32)
        ensures
            r == self.worker_count,
    {
        self.worker_count
    }

    /// What the pause gate does now: wait one poll interval while paused, else go on.
    pub fn pause_step(&self) -> (r: PauseStep)
        ensures
            r == pause_step_of(self.paused),
    {
        if self.paused {
            PauseStep::Wait { secs: PAUSE_POLL_SECS }
        } else {
            PauseStep::Proceed
        }
    }
}

/// The state after the restart signal has been consumed.
pub open spec fn consumed(s: ControlState) -> ControlState {
    ControlState { restart: false, ..s }
}

#[derive(Clone, Copy, Debug, PartialEq, Eq)]
pub enum PauseStep {
    Wait { secs: u64 },
    Proceed,
}

pub open spec fn pause_step_of(paused: bool) -> PauseStep {
    if paused {
        PauseStep::Wait { secs: PAUSE_POLL_SECS }
    } else {
        PauseStep::Proceed
    }
}

/// Restart is one-shot: a raised signal is reported by the first consume and
/// not by the second.
pub proof fn lemma_restart_one_shot(s: ControlState)
    requires
        s.restart,
    ensures
        consumed(s).restart == false,
        consumed(consumed(s)).restart == false,
        consumed(consumed(s)) == consumed(s),
{
}

/// A paused gate holds the caller for one poll of three seconds, and the first
/// look after unpausing lets the caller go on.
pub proof fn lemma_pause_blocks_then_releases(s: ControlState)
    requires
        s.paused,
    ensures
        pause_step_of(s.paused) == (PauseStep::Wait { secs: 3 }),
        pause_step_of((ControlState { paused: false, ..s }).paused) == PauseStep::Proceed,
{
}

} // verus!
