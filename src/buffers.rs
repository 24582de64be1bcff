//! Checks on a caller's set of per-channel buffers.
use vstd::prelude::*;

verus! {

/// All buffers of the set have the same length.
pub open spec fn equal_lengths<I>(buffers: Seq<&mut [I]>) -> bool {
    forall|i: int, j: int|
        0 <= i < buffers.len() && 0 <= j < buffers.len() ==> #[trigger] buffers[i]@.len()
            == #[trigger] buffers[j]@.len()
}

/// The common length of a set of buffers: that of the first, or 0 for none.
pub open spec fn common_length<I>(buffers: Seq<&mut [I]>) -> nat {
    if buffers.len() == 0 {
        0
    } else {
        buffers[0]@.len()
    }
}

/// Returns the length that all the buffers share, or 0 if there are none.
pub fn check_equal_buffer_lengths<I>(buffers: &mut [&mut [I]]) -> (r: usize)
    requires
        equal_lengths(old(buffers)@),
    ensures
        r == common_length(old(buffers)@),
        forall|i: int| 0 <= i < old(buffers)@.len() ==> #[trigger] old(buffers)@[i]@.len() == r,
        final(buffers)@ == old(buffers)@,
{
    if buffers.len() == 0 {
        0
    } else {
        buffers[0].len()
    }
}

/// The buffer set suits a streamer of `channels` channels: one buffer per
/// channel, all of one length.
pub open spec fn buffers_suit<I>(buffers: Seq<&mut [I]>, channels: nat) -> bool {
    buffers.len() == channels && equal_lengths(buffers)
}

/// Tells whether the buffer set holds one buffer per channel, all of one
/// length. A transfer on a set that does not is a wiring error.
pub fn buffers_fit<I>(buffers: &mut [&mut [I]], channels: usize) -> (r: bool)
    ensures
        r == buffers_suit(old(buffers)@, channels as nat),
        final(buffers)@ == old(buffers)@,
{
    if buffers.len() != channels {
        return false;
    }
    if buffers.len() == 0 {
        return true;
    }
    let first = buffers[0].len();
    let mut i: usize = 1;
    while i < buffers.len()
        invariant
            1 <= i <= buffers@.len(),
            first == buffers@[0]@.len(),
            forall|k: int| 0 <= k < i ==> #[trigger] buffers@[k]@.len() == first,
        decreases buffers@.len() - i,
    {
        if buffers[i].len() != first {
            assert(!equal_lengths(buffers@)) by {
                assert(buffers@[i as int]@.len() != buffers@[0]@.len());
            }
            return false;
        }
        i = i + 1;
    }
    true
}

/// Relies on `Vec::capacity`, which is never below the vector's length.
#[verifier::external_body]
fn vec_capacity(v: &Vec<usize>) -> (r: usize)
    ensures
        r >= v@.len(),
{
    v.capacity()
}

/// A table of buffer start addresses, one slot per channel, handed to the
/// driver in place of the buffers themselves. It is sized on first use and
/// reused by every later call, so that no call allocates.
pub struct BufferTable {
    slots: Vec<usize>,
}

impl BufferTable {
    /// The addresses that the slots hold.
    pub closed spec fn slots(&self) -> Seq<usize> {
        self.slots@
    }

    /// An empty table with room for `capacity` slots.
    pub fn with_capacity(capacity: usize) -> (r: BufferTable)
        ensures
            r.slots() == Seq::<usize>::empty(),
    {
        BufferTable { slots: Vec::with_capacity(capacity) }
    }

    /// The number of slots.
    pub fn len(&self) -> (r: usize)
        ensures
            r == self.slots().len(),
    {
        self.slots.len()
    }

    /// The number of slots that the table holds room for.
    pub fn capacity(&self) -> (r: usize)
        ensures
            r >= self.slots().len(),
    {
        vec_capacity(&self.slots)
    }

    /// The slots, as handed to the driver.
    pub fn as_slice(&self) -> (r: &[usize])
        ensures
            r@ == self.slots(),
    {
        self.slots.as_slice()
    }

    /// Sizes the table to `addresses` on first use, then writes every slot
    /// from `addresses`: no slot keeps an address of an earlier call.
    pub fn fill(&mut self, addresses: &[usize])
        requires
            old(self).slots().len() == 0 || old(self).slots().len() == addresses@.len(),
        ensures
            final(self).slots() == addresses@,
    {
        if self.slots.len() == 0 {
            self.slots.resize(addresses.len(), 0);
        }
        let n = addresses.len();
        let mut i: usize = 0;
        while i < n
            invariant
                n == addresses@.len(),
                self.slots@.len() == n,
                0 <= i <= n,
                forall|k: int| 0 <= k < i ==> #[trigger] self.slots@[k] == addresses@[k],
            decreases n - i,
        {
            self.slots.set(i, addresses[i]);
            i = i + 1;
        }
        assert(self.slots@ =~= addresses@);
    }
}

} // verus!
