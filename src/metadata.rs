//! What the driver reports about one transfer, and how it is decoded.
use vstd::prelude::*;

use crate::error::{status_kind, kind_of_status, Error, ErrorKind};

verus! {

/// The condition that the driver reports in a receive call's metadata.
#[derive(Clone, Copy, Debug, PartialEq, Eq, Structural)]
pub enum ReceiveErrorCode {
    /// Nothing went wrong.
    NoError,
    /// No packet arrived before the timeout.
    Timeout,
    /// A timed command arrived late.
    LateCommand,
    /// A burst was interrupted.
    BrokenChain,
    /// Samples were dropped.
    Overflow,
    /// Channels could not be aligned.
    Alignment,
    /// A packet could not be parsed.
    BadPacket,
}

/// The condition that a raw driver error code stands for, if any.
pub open spec fn error_code_of(raw: u32) -> Option<ReceiveErrorCode> {
    if raw == 0x0 {
        Some(ReceiveErrorCode::NoError)
    } else if raw == 0x1 {
        Some(ReceiveErrorCode::Timeout)
    } else if raw == 0x2 {
        Some(ReceiveErrorCode::LateCommand)
    } else if raw == 0x4 {
        Some(ReceiveErrorCode::BrokenChain)
    } else if raw == 0x8 {
        Some(ReceiveErrorCode::Overflow)
    } else if raw == 0xc {
        Some(ReceiveErrorCode::Alignment)
    } else if raw == 0xf {
        Some(ReceiveErrorCode::BadPacket)
    } else {
        None
    }
}

/// Returns the condition that a raw driver error code stands for, if any.
pub fn decode_error_code(raw: u32) -> (r: Option<ReceiveErrorCode>)
    ensures
        r == error_code_of(raw),
{
    match raw {
        0x0 => Some(ReceiveErrorCode::NoError),
        0x1 => Some(ReceiveErrorCode::Timeout),
        0x2 => Some(ReceiveErrorCode::LateCommand),
        0x4 => Some(ReceiveErrorCode::BrokenChain),
        0x8 => Some(ReceiveErrorCode::Overflow),
        0xc => Some(ReceiveErrorCode::Alignment),
        0xf => Some(ReceiveErrorCode::BadPacket),
        _ => None,
    }
}

/// The error that a reported condition is, or `None` where the call still
/// succeeds (no condition, or a timeout).
pub open spec fn condition_error(code: ReceiveErrorCode) -> Option<ErrorKind> {
    match code {
        ReceiveErrorCode::NoError => None,
        ReceiveErrorCode::Timeout => None,
        ReceiveErrorCode::LateCommand => Some(ErrorKind::LateCommand),
        ReceiveErrorCode::BrokenChain => Some(ErrorKind::BrokenChain),
        ReceiveErrorCode::Overflow => Some(ErrorKind::Overflow),
        ReceiveErrorCode::Alignment => Some(ErrorKind::Alignment),
        ReceiveErrorCode::BadPacket => Some(ErrorKind::BadPacket),
    }
}

/// Everything one native receive call hands back: its status code, the
/// number of samples it wrote, and the flags of its metadata object.
#[derive(Clone, Copy, Debug)]
pub struct ReceiveOutcome {
    pub status: i32,
    pub samples: usize,
    pub error_code: u32,
    pub start_of_burst: bool,
    pub end_of_burst: bool,
    pub more_fragments: bool,
    pub fragment_offset: usize,
}

/// The result of one receive call.
#[derive(Clone, Copy, Debug, PartialEq, Eq, Structural)]
pub struct ReceiveMetadata {
    /// Nothing went wrong, or the call timed out.
    pub error_code: ReceiveErrorCode,
    /// The samples begin a burst.
    pub start_of_burst: bool,
    /// The samples end a burst.
    pub end_of_burst: bool,
    /// The packet held more samples than the buffers took.
    pub more_fragments: bool,
    /// Where in the packet the samples began.
    pub fragment_offset: usize,
    /// The number of samples written into each buffer.
    pub samples: usize,
}

/// What a receive call returns when the driver answered `o` for buffers of
/// `buffer_length` samples: the driver's error first, then an impossible
/// sample count, then an unknown condition code, then the reported condition;
/// otherwise the metadata, with the sample count merged in.
pub open spec fn receive_result(o: ReceiveOutcome, buffer_length: nat) -> Result<
    ReceiveMetadata,
    ErrorKind,
> {
    if o.status != 0 {
        Err(status_kind(o.status))
    } else if o.samples > buffer_length {
        Err(ErrorKind::SampleCountExceeded)
    } else {
        match error_code_of(o.error_code) {
            None => Err(ErrorKind::MalformedMetadata),
            Some(code) => match condition_error(code) {
                Some(kind) => Err(kind),
                None => Ok(
                    ReceiveMetadata {
                        error_code: code,
                        start_of_burst: o.start_of_burst,
                        end_of_burst: o.end_of_burst,
                        more_fragments: o.more_fragments,
                        fragment_offset: o.fragment_offset,
                        samples: o.samples,
                    },
                ),
            },
        }
    }
}

/// `r` is the executable form of `spec`: the same metadata, or an error of
/// the same kind. An error carries the driver's status code.
pub open spec fn result_agrees(
    r: Result<ReceiveMetadata, Error>,
    spec: Result<ReceiveMetadata, ErrorKind>,
    status: i32,
) -> bool {
    match (r, spec) {
        (Ok(m), Ok(n)) => m == n,
        (Err(e), Err(k)) => e.kind == k && e.status == status,
        _ => false,
    }
}

/// A successful receive reports exactly the number of samples that the
/// driver wrote, and that never exceeds the buffer length.
pub proof fn lemma_received_samples_bounded(o: ReceiveOutcome, buffer_length: nat)
    ensures
        receive_result(o, buffer_length) matches Ok(m) ==> m.samples == o.samples && m.samples
            <= buffer_length,
{
}

/// A receive on which the driver reports a timeout without error succeeds:
/// no data yet is not a failure of the device.
pub proof fn lemma_timeout_is_not_error(o: ReceiveOutcome, buffer_length: nat)
    requires
        o.status == 0,
        o.error_code == 0x1,
        o.samples <= buffer_length,
    ensures
        receive_result(o, buffer_length) matches Ok(m) && m.error_code == ReceiveErrorCode::Timeout
            && m.samples == o.samples && m.start_of_burst == o.start_of_burst && m.end_of_burst
            == o.end_of_burst,
{
}

impl ReceiveMetadata {
    /// Decodes what the driver answered to a receive call into buffers of
    /// `buffer_length` samples.
    pub fn decode(o: &ReceiveOutcome, buffer_length: usize) -> (r: Result<ReceiveMetadata, Error>)
        ensures
            result_agrees(r, receive_result(*o, buffer_length as nat), o.status),
    {
        if o.status != 0 {
            return Err(Error::new(kind_of_status(o.status), o.status));
        }
        if o.samples > buffer_length {
            return Err(Error::new(ErrorKind::SampleCountExceeded, 0));
        }
        let code = match decode_error_code(o.error_code) {
            Some(code) => code,
            None => {
                return Err(Error::new(ErrorKind::MalformedMetadata, 0));
            },
        };
        match code {
            ReceiveErrorCode::LateCommand => Err(Error::new(ErrorKind::LateCommand, 0)),
            ReceiveErrorCode::BrokenChain => Err(Error::new(ErrorKind::BrokenChain, 0)),
            ReceiveErrorCode::Overflow => Err(Error::new(ErrorKind::Overflow, 0)),
            ReceiveErrorCode::Alignment => Err(Error::new(ErrorKind::Alignment, 0)),
            ReceiveErrorCode::BadPacket => Err(Error::new(ErrorKind::BadPacket, 0)),
            _ => Ok(
                ReceiveMetadata {
                    error_code: code,
                    start_of_burst: o.start_of_burst,
                    end_of_burst: o.end_of_burst,
                    more_fragments: o.more_fragments,
                    fragment_offset: o.fragment_offset,
                    samples: o.samples,
                },
            ),
        }
    }

    /// The number of samples written into each buffer.
    pub fn samples(&self) -> (r: usize)
        ensures
            r == self.samples,
    {
        self.samples
    }

    pub fn error_code(&self) -> (r: ReceiveErrorCode)
        ensures
            r == self.error_code,
    {
        self.error_code
    }

    pub fn start_of_burst(&self) -> (r: bool)
        ensures
            r == self.start_of_burst,
    {
        self.start_of_burst
    }

    pub fn end_of_burst(&self) -> (r: bool)
        ensures
            r == self.end_of_burst,
    {
        self.end_of_burst
    }
}

} // verus!
