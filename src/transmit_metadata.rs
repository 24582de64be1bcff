//! The metadata that goes with one send call.
use vstd::prelude::*;

use crate::error::{status_kind, kind_of_status, Error, ErrorKind};

verus! {

/// What one native send call hands back: its status code and the number of
/// samples of each buffer that the device accepted.
#[derive(Clone, Copy, Debug)]
pub struct TransmitOutcome {
    pub status: i32,
    pub samples: usize,
}

/// Describes the samples of one send call, and after the call how many of
/// them the device accepted.
#[derive(Clone, Copy, Debug, PartialEq, Eq, Structural)]
pub struct TransmitMetadata {
    /// The samples are to be sent at a set device time.
    pub has_time_spec: bool,
    /// The samples begin a burst.
    pub start_of_burst: bool,
    /// The samples end a burst.
    pub end_of_burst: bool,
    /// The number of samples of each buffer that the device accepted; 0 until
    /// a call has been made.
    pub samples: usize,
}

/// The metadata of a fresh send: one whole burst, sent at once.
pub open spec fn fresh_metadata() -> TransmitMetadata {
    TransmitMetadata { has_time_spec: false, start_of_burst: true, end_of_burst: true, samples: 0 }
}

/// What a send call returns when it was made with metadata `m` on buffers
/// of `buffer_length` samples and the driver answered `o`.
pub open spec fn send_result(m: TransmitMetadata, o: TransmitOutcome, buffer_length: nat) -> Result<
    TransmitMetadata,
    ErrorKind,
> {
    if o.status != 0 {
        Err(status_kind(o.status))
    } else if o.samples > buffer_length {
        Err(ErrorKind::SampleCountExceeded)
    } else {
        Ok(TransmitMetadata { samples: o.samples, ..m })
    }
}

/// `r` is the executable form of `spec`; an error carries `status`.
pub open spec fn send_agrees(
    r: Result<TransmitMetadata, Error>,
    spec: Result<TransmitMetadata, ErrorKind>,
    status: i32,
) -> bool {
    match (r, spec) {
        (Ok(m), Ok(n)) => m == n,
        (Err(e), Err(k)) => e.kind == k && e.status == status,
        _ => false,
    }
}

/// A successful send reports exactly the number of samples that the driver
/// accepted, and that never exceeds the buffer length.
pub proof fn lemma_accepted_samples_bounded(
    m: TransmitMetadata,
    o: TransmitOutcome,
    buffer_length: nat,
)
    ensures
        send_result(m, o, buffer_length) matches Ok(r) ==> r.samples == o.samples && r.samples
            <= buffer_length,
{
}

impl TransmitMetadata {
    pub fn new() -> (r: TransmitMetadata)
        ensures
            r == fresh_metadata(),
    {
        TransmitMetadata {
            has_time_spec: false,
            start_of_burst: true,
            end_of_burst: true,
            samples: 0,
        }
    }

    /// Merges what the driver answered to a send call on buffers of
    /// `buffer_length` samples into this metadata.
    pub fn commit(&self, o: &TransmitOutcome, buffer_length: usize) -> (r: Result<
        TransmitMetadata,
        Error,
    >)
        ensures
            send_agrees(r, send_result(*self, *o, buffer_length as nat), o.status),
    {
        if o.status != 0 {
            return Err(Error::new(kind_of_status(o.status), o.status));
        }
        if o.samples > buffer_length {
            return Err(Error::new(ErrorKind::SampleCountExceeded, 0));
        }
        let mut m = *self;
        m.set_samples(o.samples);
        Ok(m)
    }

    /// The number of samples of each buffer that the device accepted.
    pub fn samples(&self) -> (r: usize)
        ensures
            r == self.samples,
    {
        self.samples
    }

    /// Sets the number of samples that the device accepted.
    pub fn set_samples(&mut self, samples: usize)
        ensures
            *final(self) == (TransmitMetadata { samples, ..*old(self) }),
    {
        self.samples = samples;
    }

    pub fn has_time_spec(&self) -> (r: bool)
        ensures
            r == self.has_time_spec,
    {
        self.has_time_spec
    }

    pub fn start_of_burst(&self) -> (r: bool)
        ensures
            r == self.start_of_burst,
    {
        self.start_of_burst
    }

    pub fn end_of_burst(&self) -> (r: bool)
        ensures
            r == self.end_of_burst,
    {
        self.end_of_burst
    }
}

impl Default for TransmitMetadata {
    fn default() -> (r: TransmitMetadata)
        ensures
            r == fresh_metadata(),
    {
        TransmitMetadata::new()
    }
}

} // verus!
