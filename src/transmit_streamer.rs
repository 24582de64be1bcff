//! The transmit side: samples flow from the caller's buffers to the device.
use vstd::prelude::*;

use core::marker::PhantomData;

use crate::buffers::{buffers_fit, buffers_suit, check_equal_buffer_lengths, common_length, BufferTable};
use crate::error::Error;
use crate::transmit_metadata::{fresh_metadata, send_agrees, send_result, TransmitMetadata, TransmitOutcome};

verus! {

/// A streamer that sends samples of type `I` to a device.
///
/// The channel count is fixed when the streamer is bound to its native
/// handle; the native handle itself is held by the caller, who releases it
/// when `release` says so.
pub struct TransmitStreamer<I> {
    channels: usize,
    table: BufferTable,
    live: bool,
    item: PhantomData<I>,
}

impl<I> TransmitStreamer<I> {
    /// The number of channels that the streamer serves.
    pub closed spec fn channels(&self) -> nat {
        self.channels as nat
    }

    /// The buffer addresses that the last call handed to the driver, or none
    /// before the first call.
    pub closed spec fn pointers(&self) -> Seq<usize> {
        self.table.slots()
    }

    /// The streamer still holds a native handle that is to be released.
    pub closed spec fn live(&self) -> bool {
        self.live
    }

    /// The address table is unsized, or has one slot per channel.
    pub closed spec fn wf(&self) -> bool {
        self.table.slots().len() == 0 || self.table.slots().len() == self.channels
    }

    /// A streamer bound to a freshly made native handle that serves
    /// `channels` channels; the address table has room for as many slots.
    pub fn new(channels: usize) -> (r: Self)
        ensures
            r.wf(),
            r.channels() == channels,
            r.live(),
            r.pointers() == Seq::<usize>::empty(),
    {
        TransmitStreamer {
            channels,
            table: BufferTable::with_capacity(channels),
            live: true,
            item: PhantomData,
        }
    }

    /// The number of slots that the address table holds room for.
    pub fn buff_size(&self) -> (r: usize)
        ensures
            r >= self.pointers().len(),
    {
        self.table.capacity()
    }

    /// The number of slots in the address table: 0 before the first send,
    /// the channel count after it.
    pub fn buff_len(&self) -> (r: usize)
        ensures
            r == self.pointers().len(),
    {
        self.table.len()
    }

    /// Returns the number of channels that this streamer serves.
    pub fn num_channels(&self) -> (r: usize)
        ensures
            r == self.channels(),
    {
        self.channels
    }

    /// Tells whether `buffers` may be handed to `send`: one buffer per
    /// channel, all of one length.
    pub fn accepts(&self, buffers: &mut [&mut [I]]) -> (r: bool)
        ensures
            r == buffers_suit(old(buffers)@, self.channels()),
            final(buffers)@ == old(buffers)@,
    {
        buffers_fit(buffers, self.channels)
    }

    /// Sends the samples of `buffers`, whose start addresses are `addresses`.
    ///
    /// The address table is filled from `addresses`, and `device` is called
    /// once with it, the buffer length, fresh metadata (one whole burst) and
    /// the timeout in microseconds. The result records how many samples of
    /// each buffer the device accepted, never more than the buffer length.
    pub fn send<F>(
        &mut self,
        buffers: &mut [&mut [I]],
        addresses: &[usize],
        timeout_micros: u64,
        device: F,
    ) -> (r: Result<TransmitMetadata, Error>) where
        F: FnOnce(&[usize], usize, TransmitMetadata, u64) -> TransmitOutcome,

        requires
            old(self).wf(),
            buffers_suit(old(buffers)@, old(self).channels()),
            addresses@.len() == old(buffers)@.len(),
            forall|t: &[usize], n: usize, m: TransmitMetadata, us: u64|
                device.requires((t, n, m, us)),
        ensures
            final(self).wf(),
            final(self).channels() == old(self).channels(),
            final(self).live() == old(self).live(),
            final(self).pointers() == addresses@,
            final(buffers)@ == old(buffers)@,
            exists|t: &[usize], o: TransmitOutcome|
                {
                    &&& t@ == addresses@
                    &&& device.ensures(
                        (t, common_length(old(buffers)@) as usize, fresh_metadata(), timeout_micros),
                        o,
                    )
                    &&& send_agrees(
                        r,
                        send_result(fresh_metadata(), o, common_length(old(buffers)@)),
                        o.status,
                    )
                },
            r matches Ok(m) ==> m.samples <= common_length(old(buffers)@),
    {
        let buffer_length = check_equal_buffer_lengths(buffers);
        self.table.fill(addresses);
        let metadata = TransmitMetadata::new();
        let table = self.table.as_slice();
        let outcome = device(table, buffer_length, metadata, timeout_micros);
        metadata.commit(&outcome, buffer_length)
    }

    /// Marks the native handle released. Returns whether the caller is to
    /// free it now: true once for a streamer made with a handle, never again.
    pub fn release(&mut self) -> (r: bool)
        ensures
            r == old(self).live(),
            !final(self).live(),
            final(self).channels() == old(self).channels(),
            final(self).pointers() == old(self).pointers(),
            final(self).wf() == old(self).wf(),
    {
        let r = self.live;
        self.live = false;
        r
    }
}

} // verus!
