use vstd::prelude::*;

use crate::status::{status_of, Status};

verus! {

/// A breach of the session protocol by the caller.
#[derive(Clone, Copy, Debug, PartialEq, Eq, Structural)]
pub enum SessionError {
    /// A store operation was issued without an active session.
    NoActiveSession,
    /// A session was started while this thread already holds one.
    SessionAlreadyActive,
    /// The session was stopped while some of its operations were still
    /// pending.
    SessionStillPending,
    /// An operation came with a serial number below an earlier one of the
    /// same session.
    SerialNumberRegressed,
}

/// The per-thread execution context that every store operation needs: whether
/// the thread holds a session, how many of its operations are still pending,
/// and the serial-number cursor (the highest serial number accepted so far).
#[derive(Clone, Copy, Debug, PartialEq, Eq, Structural)]
pub struct Session {
    pub active: bool,
    pub outstanding: u64,
    pub cursor: u64,
}

impl Session {
    /// A thread's context before it starts a session.
    pub fn new() -> (r: Session)
        ensures
            !r.active,
            r.outstanding == 0,
            r.cursor == 0,
    {
        Session { active: false, outstanding: 0, cursor: 0 }
    }

    /// Starts a session: nothing pending, cursor at zero.
    pub fn start(&mut self) -> (r: Result<(), SessionError>)
        ensures
            old(self).active ==> r == Err::<(), SessionError>(SessionError::SessionAlreadyActive)
                && *final(self) == *old(self),
            !old(self).active ==> r is Ok && final(self).active && final(self).outstanding == 0
                && final(self).cursor == 0,
    {
        if self.active {
            Err(SessionError::SessionAlreadyActive)
        } else {
            *self = Session { active: true, outstanding: 0, cursor: 0 };
            Ok(())
        }
    }

    /// Accepts an operation with serial number `serial`: it needs an active
    /// session and a serial number no lower than the cursor, which then moves
    /// to it.
    pub fn accept(&mut self, serial: u64) -> (r: Result<(), SessionError>)
        ensures
            !old(self).active ==> r == Err::<(), SessionError>(SessionError::NoActiveSession),
            old(self).active && serial < old(self).cursor ==> r == Err::<(), SessionError>(
                SessionError::SerialNumberRegressed,
            ),
            r is Err ==> *final(self) == *old(self),
            old(self).active && serial >= old(self).cursor ==> r is Ok && *final(self) == (
            Session { cursor: serial, ..*old(self) }),
    {
        if !self.active {
            Err(SessionError::NoActiveSession)
        } else if serial < self.cursor {
            Err(SessionError::SerialNumberRegressed)
        } else {
            self.cursor = serial;
            Ok(())
        }
    }

    /// Records the status of an accepted operation: a pending one is counted
    /// until completions are drained (the count stops at `u64::MAX`).
    pub fn record(&mut self, status: Status)
        ensures
            status == Status::Pending ==> final(self).outstanding == (if old(self).outstanding
                == u64::MAX {
                u64::MAX
            } else {
                (old(self).outstanding + 1) as u64
            }),
            status != Status::Pending ==> final(self).outstanding == old(self).outstanding,
            final(self).active == old(self).active,
            final(self).cursor == old(self).cursor,
    {
        if status == Status::Pending && self.outstanding < u64::MAX {
            self.outstanding = self.outstanding + 1;
        }
    }

    /// Takes in the status byte `code` that the engine gave for an accepted
    /// operation: decodes it and records it.
    pub fn observe(&mut self, code: u8) -> (r: Status)
        ensures
            r == status_of(code),
            r == Status::Pending ==> final(self).outstanding == (if old(self).outstanding
                == u64::MAX {
                u64::MAX
            } else {
                (old(self).outstanding + 1) as u64
            }),
            r != Status::Pending ==> final(self).outstanding == old(self).outstanding,
            final(self).active == old(self).active,
            final(self).cursor == old(self).cursor,
    {
        let status = Status::from_code(code);
        self.record(status);
        status
    }

    /// Records a drain of completions. A drain that waited has finished every
    /// outstanding operation; one that did not wait may have left some.
    pub fn complete(&mut self, wait: bool) -> (r: Result<(), SessionError>)
        ensures
            !old(self).active ==> r == Err::<(), SessionError>(SessionError::NoActiveSession)
                && *final(self) == *old(self),
            old(self).active ==> r is Ok,
            old(self).active && wait ==> *final(self) == (Session {
                outstanding: 0,
                ..*old(self)
            }),
            old(self).active && !wait ==> *final(self) == *old(self),
    {
        if !self.active {
            Err(SessionError::NoActiveSession)
        } else {
            if wait {
                self.outstanding = 0;
            }
            Ok(())
        }
    }

    /// Checks that a refresh of the thread's epoch protection is allowed: it
    /// needs an active session.
    pub fn refresh(&self) -> (r: Result<(), SessionError>)
        ensures
            r is Ok <==> self.active,
            r is Err ==> r == Err::<(), SessionError>(SessionError::NoActiveSession),
    {
        if self.active {
            Ok(())
        } else {
            Err(SessionError::NoActiveSession)
        }
    }

    /// Stops the session. It fails while operations are still pending, since
    /// their completions would be lost.
    pub fn stop(&mut self) -> (r: Result<(), SessionError>)
        ensures
            !old(self).active ==> r == Err::<(), SessionError>(SessionError::NoActiveSession),
            old(self).active && old(self).outstanding > 0 ==> r == Err::<(), SessionError>(
                SessionError::SessionStillPending,
            ),
            r is Err ==> *final(self) == *old(self),
            old(self).active && old(self).outstanding == 0 ==> r is Ok && !final(self).active
                && final(self).outstanding == 0 && final(self).cursor == old(self).cursor,
    {
        if !self.active {
            Err(SessionError::NoActiveSession)
        } else if self.outstanding > 0 {
            Err(SessionError::SessionStillPending)
        } else {
            self.active = false;
            Ok(())
        }
    }
}

} // verus!
