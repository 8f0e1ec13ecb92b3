//! Error kinds of the driver and their negative errno codes.
use vstd::prelude::*;

verus! {

/// What went wrong, by kind.
#[derive(Clone, Copy, Debug, PartialEq, Eq, Structural)]
pub enum DrvError {
    /// A wait ran out: inhibit, command or data completion, card readiness.
    Timeout,
    /// A CRC error on the command or data line.
    BadCrc,
    /// An end-bit error on the command or data line.
    BadMessage,
    /// An R5 error bit, an ADMA error, or an unclassified failure.
    Io,
    /// The command table is full, the DMA pool is busy, or a buffer is too small.
    NoMem,
    /// The card is not one of the supported chips, or no card answered.
    NoDevice,
    /// A request parameter is out of range.
    Invalid,
    /// The operation is not implemented.
    NotSupported,
    /// The operation must be retried after pending work has run.
    Again,
}

/// The negative errno value of an error kind.
pub open spec fn errno_of(e: DrvError) -> i32 {
    match e {
        DrvError::Timeout => -110i32,
        DrvError::BadCrc => -84i32,
        DrvError::BadMessage => -74i32,
        DrvError::Io => -5i32,
        DrvError::NoMem => -12i32,
        DrvError::NoDevice => -19i32,
        DrvError::Invalid => -22i32,
        DrvError::NotSupported => -38i32,
        DrvError::Again => -11i32,
    }
}

impl DrvError {
    /// The negative errno value of this error.
    pub fn code(&self) -> (r: i32)
        ensures
            r == errno_of(*self),
    {
        match self {
            DrvError::Timeout => -110,
            DrvError::BadCrc => -84,
            DrvError::BadMessage => -74,
            DrvError::Io => -5,
            DrvError::NoMem => -12,
            DrvError::NoDevice => -19,
            DrvError::Invalid => -22,
            DrvError::NotSupported => -38,
            DrvError::Again => -11,
        }
    }

    /// The error kind of a negative errno value; `None` for any other value.
    pub fn from_code(c: i32) -> (r: Option<DrvError>)
        ensures
            r matches Some(e) ==> errno_of(e) == c,
            r is None ==> forall|e: DrvError| errno_of(e) != c,
    {
        if c == -110 {
            Some(DrvError::Timeout)
        } else if c == -84 {
            Some(DrvError::BadCrc)
        } else if c == -74 {
            Some(DrvError::BadMessage)
        } else if c == -5 {
            Some(DrvError::Io)
        } else if c == -12 {
            Some(DrvError::NoMem)
        } else if c == -19 {
            Some(DrvError::NoDevice)
        } else if c == -22 {
            Some(DrvError::Invalid)
        } else if c == -38 {
            Some(DrvError::NotSupported)
        } else if c == -11 {
            Some(DrvError::Again)
        } else {
            None
        }
    }
}

/// The errno value of a result: 0 for success.
pub open spec fn result_code(r: Result<(), DrvError>) -> i32 {
    match r {
        Ok(()) => 0i32,
        Err(e) => errno_of(e),
    }
}

} // verus!
