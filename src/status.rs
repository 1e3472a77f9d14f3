use vstd::prelude::*;

verus! {

/// Outcome of one engine operation, as reported by the engine's status byte.
#[derive(Clone, Copy, Debug, PartialEq, Eq, Structural)]
pub enum Status {
    Success,
    Pending,
    NotFound,
    OutOfLogSpace,
    IoError,
    Corruption,
    Aborted,
    Unknown(u8),
}

/// The status that the engine's status byte `code` stands for.
pub open spec fn status_of(code: u8) -> Status {
    if code == 0 {
        Status::Success
    } else if code == 1 {
        Status::Pending
    } else if code == 2 {
        Status::NotFound
    } else if code == 3 {
        Status::OutOfLogSpace
    } else if code == 4 {
        Status::IoError
    } else if code == 5 {
        Status::Corruption
    } else if code == 6 {
        Status::Aborted
    } else {
        Status::Unknown(code)
    }
}

impl Status {
    /// The status byte that stands for this status.
    pub open spec fn spec_code(self) -> u8 {
        match self {
            Status::Success => 0,
            Status::Pending => 1,
            Status::NotFound => 2,
            Status::OutOfLogSpace => 3,
            Status::IoError => 4,
            Status::Corruption => 5,
            Status::Aborted => 6,
            Status::Unknown(c) => c,
        }
    }

    /// Decodes a status byte.
    pub fn from_code(code: u8) -> (r: Status)
        ensures
            r == status_of(code),
    {
        match code {
            0 => Status::Success,
            1 => Status::Pending,
            2 => Status::NotFound,
            3 => Status::OutOfLogSpace,
            4 => Status::IoError,
            5 => Status::Corruption,
            6 => Status::Aborted,
            _ => Status::Unknown(code),
        }
    }

    /// Encodes this status as the byte that the binding layer reports.
    pub fn code(&self) -> (r: u8)
        ensures
            r == self.spec_code(),
    {
        match self {
            Status::Success => 0,
            Status::Pending => 1,
            Status::NotFound => 2,
            Status::OutOfLogSpace => 3,
            Status::IoError => 4,
            Status::Corruption => 5,
            Status::Aborted => 6,
            Status::Unknown(c) => *c,
        }
    }
}

/// Whether a read with status byte `code` found the key: 1 when it did, 0
/// otherwise (absent, still pending, or failed).
pub fn presence(code: u8) -> (r: usize)
    ensures
        r == (if status_of(code) == Status::Success { 1usize } else { 0usize }),
{
    if code == 0 {
        1
    } else {
        0
    }
}

/// The length reported for a read with status byte `code` whose value has
/// `len` bytes: the length when the read found the key, -1 otherwise.
pub fn length_or_missing(code: u8, len: usize) -> (r: i64)
    requires
        len <= i64::MAX,
    ensures
        status_of(code) == Status::Success ==> r == len,
        status_of(code) != Status::Success ==> r == -1,
{
    if code == 0 {
        len as i64
    } else {
        -1
    }
}

/// Whether a read with status byte `code` has a value ready to hand over now.
/// Only a read that found the key in memory has one; a pending read delivers
/// its value later, when completions are drained.
pub fn value_ready(code: u8) -> (r: bool)
    ensures
        r == (status_of(code) == Status::Success),
{
    code == 0
}

/// Decoding and encoding a status byte are inverse.
pub proof fn lemma_code_round_trip(code: u8)
    ensures
        status_of(code).spec_code() == code,
{
}

} // verus!
