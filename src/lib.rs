//! Host-side sample streaming for software-defined radio devices.
//!
//! The native driver moves the samples; this library holds the decisions
//! around each transfer: which buffers may be handed to the driver, the
//! table of buffer addresses given to it, and how the driver's status code,
//! flags and sample count become a result.
pub mod buffers;
pub mod error;
pub mod metadata;
pub mod receive_streamer;
pub mod stream;
pub mod transmit_metadata;
pub mod transmit_streamer;

pub use crate::error::{Error, ErrorKind};
pub use crate::metadata::{ReceiveErrorCode, ReceiveMetadata, ReceiveOutcome};
pub use crate::receive_streamer::ReceiveStreamer;
pub use crate::stream::{StreamCommand, StreamCommandKind};
pub use crate::transmit_metadata::{TransmitMetadata, TransmitOutcome};
pub use crate::transmit_streamer::TransmitStreamer;
