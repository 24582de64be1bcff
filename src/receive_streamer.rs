//! The receive side: samples flow from the device into the caller's buffers.
use vstd::prelude::*;

use core::marker::PhantomData;

use crate::buffers::{buffers_fit, buffers_suit, check_equal_buffer_lengths, common_length, BufferTable};
use crate::error::{check_status, status_kind, Error};
use crate::stream::{command_fields_of, CommandFields, StreamCommand};
use crate::metadata::{receive_result, result_agrees, ReceiveMetadata, ReceiveOutcome};

verus! {

/// The timeout of `receive_simple`, in microseconds.
pub const SIMPLE_TIMEOUT_MICROS: u64 = 100000;

/// A streamer that receives samples of type `I` from a device.
///
/// The channel count is fixed when the streamer is bound to its native
/// handle; the native handle itself is held by the caller, who releases it
/// when `release` says so.
pub struct ReceiveStreamer<I> {
    channels: usize,
    table: BufferTable,
    live: bool,
    item: PhantomData<I>,
}

impl<I> ReceiveStreamer<I> {
    /// The number of channels that the streamer serves.
    pub closed spec fn channels(&self) -> nat {
        self.channels as nat
    }

    /// The buffer addresses that the last call handed to the driver, or none
    /// before the first call.
    pub closed spec fn pointers(&self) -> Seq<usize> {
        self.table.slots()
    }

    /// The streamer still holds a native handle that is to be released.
    pub closed spec fn live(&self) -> bool {
        self.live
    }

    /// The address table is unsized, or has one slot per channel.
    pub closed spec fn wf(&self) -> bool {
        self.table.slots().len() == 0 || self.table.slots().len() == self.channels
    }

    /// A streamer with no native handle and no channels.
    pub fn new() -> (r: Self)
        ensures
            r.wf(),
            r.channels() == 0,
            !r.live(),
            r.pointers() == Seq::<usize>::empty(),
    {
        ReceiveStreamer {
            channels: 0,
            table: BufferTable::with_capacity(0),
            live: false,
            item: PhantomData,
        }
    }

    /// A streamer bound to a freshly made native handle that serves
    /// `channels` channels.
    pub fn with_capacity(channels: usize) -> (r: Self)
        ensures
            r.wf(),
            r.channels() == channels,
            r.live(),
            r.pointers() == Seq::<usize>::empty(),
    {
        ReceiveStreamer {
            channels,
            table: BufferTable::with_capacity(channels),
            live: true,
            item: PhantomData,
        }
    }

    /// Returns the number of channels that this streamer serves.
    pub fn num_channels(&self) -> (r: usize)
        ensures
            r == self.channels(),
    {
        self.channels
    }

    /// Sends a stream command, to start or stop streaming: `device` is called
    /// once with the command's driver form and answers a status code.
    pub fn send_command<F>(&self, command: &StreamCommand, device: F) -> (r: Result<(), Error>) where
        F: FnOnce(CommandFields) -> i32,

        requires
            forall|c: CommandFields| device.requires((c,)),
        ensures
            exists|status: i32|
                {
                    &&& device.ensures((command_fields_of(command.kind, command.scheduled),), status)
                    &&& (r is Ok <==> status == 0)
                    &&& (r matches Err(e) ==> e.kind == status_kind(status) && e.status == status)
                },
    {
        let status = device(command.as_fields());
        check_status(status)
    }

    /// Tells whether `buffers` may be handed to `receive`: one buffer per
    /// channel, all of one length.
    pub fn accepts(&self, buffers: &mut [&mut [I]]) -> (r: bool)
        ensures
            r == buffers_suit(old(buffers)@, self.channels()),
            final(buffers)@ == old(buffers)@,
    {
        buffers_fit(buffers, self.channels)
    }

    /// Receives samples into `buffers`, whose start addresses are
    /// `addresses`.
    ///
    /// The address table is filled from `addresses`, and `device` is called
    /// once with it, the buffer length, the timeout in microseconds and the
    /// one-packet flag; what it answers is decoded into the result. The
    /// number of samples in the result never exceeds the buffer length.
    pub fn receive<F>(
        &mut self,
        buffers: &mut [&mut [I]],
        addresses: &[usize],
        timeout_micros: u64,
        one_packet: bool,
        device: F,
    ) -> (r: Result<ReceiveMetadata, Error>) where F: FnOnce(&[usize], usize, u64, bool) -> ReceiveOutcome
        requires
            old(self).wf(),
            buffers_suit(old(buffers)@, old(self).channels()),
            addresses@.len() == old(buffers)@.len(),
            forall|t: &[usize], n: usize, us: u64, p: bool| device.requires((t, n, us, p)),
        ensures
            final(self).wf(),
            final(self).channels() == old(self).channels(),
            final(self).live() == old(self).live(),
            final(self).pointers() == addresses@,
            final(buffers)@ == old(buffers)@,
            exists|t: &[usize], o: ReceiveOutcome|
                {
                    &&& t@ == addresses@
                    &&& device.ensures(
                        (t, common_length(old(buffers)@) as usize, timeout_micros, one_packet),
                        o,
                    )
                    &&& result_agrees(r, receive_result(o, common_length(old(buffers)@)), o.status)
                },
            r matches Ok(m) ==> m.samples <= common_length(old(buffers)@),
    {
        let buffer_length = check_equal_buffer_lengths(buffers);
        self.table.fill(addresses);
        let table = self.table.as_slice();
        let outcome = device(table, buffer_length, timeout_micros, one_packet);
        ReceiveMetadata::decode(&outcome, buffer_length)
    }

    /// Receives samples on a single channel with the default timeout and
    /// without one-packet mode.
    pub fn receive_simple<F>(&mut self, buffer: &mut [I], address: usize, device: F) -> (r: Result<
        ReceiveMetadata,
        Error,
    >) where F: FnOnce(&[usize], usize, u64, bool) -> ReceiveOutcome
        requires
            old(self).wf(),
            old(self).channels() == 1,
            forall|t: &[usize], n: usize, us: u64, p: bool| device.requires((t, n, us, p)),
        ensures
            final(self).wf(),
            final(self).channels() == 1,
            final(self).live() == old(self).live(),
            final(self).pointers() == seq![address],
            exists|t: &[usize], o: ReceiveOutcome|
                {
                    &&& t@ == seq![address]
                    &&& device.ensures(
                        (t, old(buffer)@.len() as usize, SIMPLE_TIMEOUT_MICROS, false),
                        o,
                    )
                    &&& result_agrees(r, receive_result(o, old(buffer)@.len()), o.status)
                },
            r matches Ok(m) ==> m.samples <= old(buffer)@.len(),
    {
        let addresses = [address];
        let mut buffers = [buffer];
        self.receive(&mut buffers, &addresses, SIMPLE_TIMEOUT_MICROS, false, device)
    }

    /// Marks the native handle released. Returns whether the caller is to
    /// free it now: true once for a streamer made with a handle, never again.
    pub fn release(&mut self) -> (r: bool)
        ensures
            r == old(self).live(),
            !final(self).live(),
            final(self).channels() == old(self).channels(),
            final(self).pointers() == old(self).pointers(),
            final(self).wf() == old(self).wf(),
    {
        let r = self.live;
        self.live = false;
        r
    }
}

} // verus!
