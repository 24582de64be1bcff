//! Stream commands: start, stop, or stream a set number of samples.
use vstd::prelude::*;

verus! {

/// What a stream command asks the device to do.
#[derive(Clone, Copy, Debug, PartialEq, Eq, Structural)]
pub enum StreamCommandKind {
    /// Stream until told to stop.
    StartContinuous,
    /// Stream this many samples, then stop.
    CountAndDone(usize),
    /// Stream this many samples, then expect another command.
    CountAndMore(usize),
    /// Stop streaming.
    StopContinuous,
}

/// The driver's code for continuous streaming.
pub const MODE_START_CONTINUOUS: u32 = 97;
/// The driver's code for stopping.
pub const MODE_STOP_CONTINUOUS: u32 = 111;
/// The driver's code for a number of samples, then stop.
pub const MODE_NUM_SAMPS_AND_DONE: u32 = 100;
/// The driver's code for a number of samples, then another command.
pub const MODE_NUM_SAMPS_AND_MORE: u32 = 109;

/// A stream command as the driver takes it, but for its start time, which
/// goes alongside.
#[derive(Clone, Copy, Debug, PartialEq, Eq, Structural)]
pub struct CommandFields {
    pub stream_mode: u32,
    pub num_samps: usize,
    pub stream_now: bool,
}

/// The driver form of a command of kind `kind`, to take effect at once or,
/// if `scheduled`, at the start time sent with it.
pub open spec fn command_fields_of(kind: StreamCommandKind, scheduled: bool) -> CommandFields {
    match kind {
        StreamCommandKind::StartContinuous => CommandFields {
            stream_mode: MODE_START_CONTINUOUS,
            num_samps: 0,
            stream_now: !scheduled,
        },
        StreamCommandKind::CountAndDone(n) => CommandFields {
            stream_mode: MODE_NUM_SAMPS_AND_DONE,
            num_samps: n,
            stream_now: !scheduled,
        },
        StreamCommandKind::CountAndMore(n) => CommandFields {
            stream_mode: MODE_NUM_SAMPS_AND_MORE,
            num_samps: n,
            stream_now: !scheduled,
        },
        StreamCommandKind::StopContinuous => CommandFields {
            stream_mode: MODE_STOP_CONTINUOUS,
            num_samps: 0,
            stream_now: !scheduled,
        },
    }
}

/// A stream command, to take effect at once or at a start time that is sent
/// alongside it.
#[derive(Clone, Copy, Debug, PartialEq, Eq, Structural)]
pub struct StreamCommand {
    pub kind: StreamCommandKind,
    pub scheduled: bool,
}

impl StreamCommand {
    /// A command that takes effect at once.
    pub fn now(kind: StreamCommandKind) -> (r: StreamCommand)
        ensures
            r == (StreamCommand { kind, scheduled: false }),
    {
        StreamCommand { kind, scheduled: false }
    }

    /// A command that takes effect at the start time sent with it.
    pub fn at_time(kind: StreamCommandKind) -> (r: StreamCommand)
        ensures
            r == (StreamCommand { kind, scheduled: true }),
    {
        StreamCommand { kind, scheduled: true }
    }

    /// The driver form of this command.
    pub fn as_fields(&self) -> (r: CommandFields)
        ensures
            r == command_fields_of(self.kind, self.scheduled),
    {
        let now = !self.scheduled;
        match self.kind {
            StreamCommandKind::StartContinuous => CommandFields {
                stream_mode: MODE_START_CONTINUOUS,
                num_samps: 0,
                stream_now: now,
            },
            StreamCommandKind::CountAndDone(n) => CommandFields {
                stream_mode: MODE_NUM_SAMPS_AND_DONE,
                num_samps: n,
                stream_now: now,
            },
            StreamCommandKind::CountAndMore(n) => CommandFields {
                stream_mode: MODE_NUM_SAMPS_AND_MORE,
                num_samps: n,
                stream_now: now,
            },
            StreamCommandKind::StopContinuous => CommandFields {
                stream_mode: MODE_STOP_CONTINUOUS,
                num_samps: 0,
                stream_now: now,
            },
        }
    }
}

} // verus!
