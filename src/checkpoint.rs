use vstd::prelude::*;

verus! {

/// Where the checkpoint controller stands.
#[derive(Clone, Copy, Debug, PartialEq, Eq, Structural)]
pub enum Phase {
    Idle,
    /// A checkpoint was asked for; the session cursors are fixed.
    Requested,
    /// Waiting for every active session to reach a safe epoch.
    Draining,
    /// Index, log cut and session cursors are being written.
    Writing,
}

#[derive(Clone, Copy, Debug, PartialEq, Eq, Structural)]
pub enum CheckpointError {
    /// A checkpoint was asked for while another one runs; the caller retries.
    CheckpointInProgress,
    /// A step was taken that the current phase does not allow.
    PhaseMismatch,
    /// The engine could not write the checkpoint.
    CheckpointFailed,
}

/// A finished checkpoint: its version and the serial-number cursor of each
/// session that was active when it was asked for.
#[derive(Debug)]
pub struct Checkpoint {
    pub version: u64,
    pub cursors: Vec<u64>,
}

/// The checkpoint state machine: `Idle`, `Requested`, `Draining`, `Writing`,
/// and back to `Idle`. `version` counts the checkpoints written so far (it
/// stops at `u64::MAX`).
#[derive(Debug)]
pub struct Controller {
    pub phase: Phase,
    pub version: u64,
    pub cursors: Vec<u64>,
}

impl Controller {
    pub fn new() -> (r: Controller)
        ensures
            r.phase == Phase::Idle,
            r.version == 0,
            r.cursors@.len() == 0,
    {
        Controller { phase: Phase::Idle, version: 0, cursors: Vec::new() }
    }

    /// Asks for a checkpoint that records `cursors`. Only an idle controller
    /// takes it; otherwise the caller must retry later.
    pub fn request(&mut self, cursors: Vec<u64>) -> (r: Result<(), CheckpointError>)
        ensures
            old(self).phase == Phase::Idle ==> r is Ok && final(self).phase == Phase::Requested
                && final(self).cursors@ == cursors@ && final(self).version == old(self).version,
            old(self).phase != Phase::Idle ==> r == Err::<(), CheckpointError>(
                CheckpointError::CheckpointInProgress,
            ) && final(self).phase == old(self).phase && final(self).version == old(self).version
                && final(self).cursors@ == old(self).cursors@,
    {
        if self.phase == Phase::Idle {
            self.phase = Phase::Requested;
            self.cursors = cursors;
            Ok(())
        } else {
            Err(CheckpointError::CheckpointInProgress)
        }
    }

    /// Moves from `from` to `to`, or reports that the phase is not `from`.
    fn step(&mut self, from: Phase, to: Phase) -> (r: Result<(), CheckpointError>)
        ensures
            old(self).phase == from ==> r is Ok && final(self).phase == to,
            old(self).phase != from ==> r == Err::<(), CheckpointError>(
                CheckpointError::PhaseMismatch,
            ) && final(self).phase == old(self).phase,
            final(self).version == old(self).version,
            final(self).cursors@ == old(self).cursors@,
    {
        if self.phase == from {
            self.phase = to;
            Ok(())
        } else {
            Err(CheckpointError::PhaseMismatch)
        }
    }

    /// Starts waiting for the sessions to reach a safe epoch.
    pub fn drain(&mut self) -> (r: Result<(), CheckpointError>)
        ensures
            old(self).phase == Phase::Requested ==> r is Ok && final(self).phase
                == Phase::Draining,
            old(self).phase != Phase::Requested ==> r == Err::<(), CheckpointError>(
                CheckpointError::PhaseMismatch,
            ) && final(self).phase == old(self).phase,
            final(self).version == old(self).version,
            final(self).cursors@ == old(self).cursors@,
    {
        self.step(Phase::Requested, Phase::Draining)
    }

    /// Starts writing, once every session has drained.
    pub fn write(&mut self) -> (r: Result<(), CheckpointError>)
        ensures
            old(self).phase == Phase::Draining ==> r is Ok && final(self).phase
                == Phase::Writing,
            old(self).phase != Phase::Draining ==> r == Err::<(), CheckpointError>(
                CheckpointError::PhaseMismatch,
            ) && final(self).phase == old(self).phase,
            final(self).version == old(self).version,
            final(self).cursors@ == old(self).cursors@,
    {
        self.step(Phase::Draining, Phase::Writing)
    }

    /// Ends the write, `written` telling whether the engine succeeded, and
    /// returns to `Idle`. A written checkpoint gets the next version and the
    /// cursors fixed at request time.
    pub fn finish(&mut self, written: bool) -> (r: Result<Checkpoint, CheckpointError>)
        ensures
            old(self).phase != Phase::Writing ==> r == Err::<Checkpoint, CheckpointError>(
                CheckpointError::PhaseMismatch,
            ) && final(self).phase == old(self).phase && final(self).version == old(self).version
                && final(self).cursors@ == old(self).cursors@,
            old(self).phase == Phase::Writing ==> final(self).phase == Phase::Idle
                && final(self).cursors@.len() == 0,
            old(self).phase == Phase::Writing && !written ==> r == Err::<Checkpoint, CheckpointError>(
                CheckpointError::CheckpointFailed,
            ) && final(self).version == old(self).version,
            old(self).phase == Phase::Writing && written ==> (r matches Ok(c) && c.version
                == final(self).version && c.cursors@ == old(self).cursors@),
            old(self).phase == Phase::Writing && written ==> final(self).version == (if old(
                self,
            ).version == u64::MAX {
                u64::MAX
            } else {
                (old(self).version + 1) as u64
            }),
    {
        if self.phase != Phase::Writing {
            return Err(CheckpointError::PhaseMismatch);
        }
        self.phase = Phase::Idle;
        let mut cursors: Vec<u64> = Vec::new();
        std::mem::swap(&mut cursors, &mut self.cursors);
        if !written {
            return Err(CheckpointError::CheckpointFailed);
        }
        if self.version < u64::MAX {
            self.version = self.version + 1;
        }
        Ok(Checkpoint { version: self.version, cursors })
    }
}

} // verus!
