//! Errors reported by the driver or found while decoding its answers.
use vstd::prelude::*;

verus! {

/// What went wrong.
#[derive(Clone, Copy, Debug, PartialEq, Eq, Structural)]
pub enum ErrorKind {
    /// The device handle is not valid.
    InvalidDevice,
    /// An index was out of range.
    Index,
    /// A key was not found.
    Key,
    /// The operation is not implemented.
    NotImplemented,
    /// A USB transfer failed.
    Usb,
    /// An input or output operation failed.
    Io,
    /// The operating system reported an error.
    Os,
    /// An assertion in the driver failed.
    Assertion,
    /// A lookup failed.
    Lookup,
    /// A value had the wrong type.
    Type,
    /// A value was not valid.
    Value,
    /// A runtime error.
    Runtime,
    /// An environment error.
    Environment,
    /// A system error.
    System,
    /// Another driver exception.
    Except,
    /// A Boost exception.
    BoostExcept,
    /// A standard library exception.
    StdExcept,
    /// A status code that the driver does not define.
    Unknown,
    /// A timed command reached the device after its time had passed.
    LateCommand,
    /// A burst was interrupted.
    BrokenChain,
    /// Samples were dropped because the host did not read them in time.
    Overflow,
    /// Packets of several channels could not be aligned.
    Alignment,
    /// A packet could not be parsed.
    BadPacket,
    /// The driver reported an error code that has no meaning.
    MalformedMetadata,
    /// The driver reported more samples than the buffers hold.
    SampleCountExceeded,
}

/// The kind of error that a non-zero driver status code stands for.
pub open spec fn status_kind(status: i32) -> ErrorKind {
    if status == 1 {
        ErrorKind::InvalidDevice
    } else if status == 10 {
        ErrorKind::Index
    } else if status == 11 {
        ErrorKind::Key
    } else if status == 20 {
        ErrorKind::NotImplemented
    } else if status == 21 {
        ErrorKind::Usb
    } else if status == 30 {
        ErrorKind::Io
    } else if status == 31 {
        ErrorKind::Os
    } else if status == 40 {
        ErrorKind::Assertion
    } else if status == 41 {
        ErrorKind::Lookup
    } else if status == 42 {
        ErrorKind::Type
    } else if status == 43 {
        ErrorKind::Value
    } else if status == 44 {
        ErrorKind::Runtime
    } else if status == 45 {
        ErrorKind::Environment
    } else if status == 46 {
        ErrorKind::System
    } else if status == 47 {
        ErrorKind::Except
    } else if status == 60 {
        ErrorKind::BoostExcept
    } else if status == 70 {
        ErrorKind::StdExcept
    } else {
        ErrorKind::Unknown
    }
}

/// Returns the kind of error that a non-zero driver status code stands for.
pub fn kind_of_status(status: i32) -> (r: ErrorKind)
    ensures
        r == status_kind(status),
{
    match status {
        1 => ErrorKind::InvalidDevice,
        10 => ErrorKind::Index,
        11 => ErrorKind::Key,
        20 => ErrorKind::NotImplemented,
        21 => ErrorKind::Usb,
        30 => ErrorKind::Io,
        31 => ErrorKind::Os,
        40 => ErrorKind::Assertion,
        41 => ErrorKind::Lookup,
        42 => ErrorKind::Type,
        43 => ErrorKind::Value,
        44 => ErrorKind::Runtime,
        45 => ErrorKind::Environment,
        46 => ErrorKind::System,
        47 => ErrorKind::Except,
        60 => ErrorKind::BoostExcept,
        70 => ErrorKind::StdExcept,
        _ => ErrorKind::Unknown,
    }
}

/// An error, with the driver's status code (0 where the driver reported
/// success and the error was found in its answer) and a diagnostic message.
#[derive(Clone, Debug)]
pub struct Error {
    pub kind: ErrorKind,
    pub status: i32,
    pub message: String,
}

impl Error {
    /// An error with an empty message.
    pub fn new(kind: ErrorKind, status: i32) -> (r: Error)
        ensures
            r.kind == kind,
            r.status == status,
            r.message@ == Seq::<char>::empty(),
    {
        Error { kind, status, message: String::new() }
    }

    /// The same error with the given diagnostic message.
    pub fn with_message(self, message: String) -> (r: Error)
        ensures
            r.kind == self.kind,
            r.status == self.status,
            r.message == message,
    {
        Error { kind: self.kind, status: self.status, message }
    }

    pub fn kind(&self) -> (r: ErrorKind)
        ensures
            r == self.kind,
    {
        self.kind
    }

    pub fn status(&self) -> (r: i32)
        ensures
            r == self.status,
    {
        self.status
    }
}

/// Turns a driver status code into a result: 0 is success, anything else
/// is an error of the kind that the code stands for.
pub fn check_status(status: i32) -> (r: Result<(), Error>)
    ensures
        r is Ok <==> status == 0,
        r matches Err(e) ==> e.kind == status_kind(status) && e.status == status,
{
    if status == 0 {
        Ok(())
    } else {
        Err(Error::new(kind_of_status(status), status))
    }
}

} // verus!
