//! The bounded view over a device region that read and write trampolines
//! hand to device code.

use vstd::prelude::*;

use crate::error::MemError;

verus! {

/// One read or write access as a device sees it: a bounded view of the
/// device region, the number of bytes the access touches, and the offset
/// at which it starts.
pub struct RwEvent {
    /// The device region, exactly as large as the device declared it.
    pub region: Vec<u8>,
    /// Number of bytes the access covers.
    pub affected: u8,
    /// Offset of the access from the region start.
    pub offset: usize,
}

impl RwEvent {
    /// Bundles a region view with the parameters of one access.
    pub fn new(region: Vec<u8>, affected: u8, offset: usize) -> (r: Self)
        ensures
            r.region == region,
            r.affected == affected,
            r.offset == offset,
    {
        RwEvent { region, affected, offset }
    }

    /// Copies `buf` into the region at `offset`, refusing an offset past
    /// the region end and a buffer that does not fit before it.
    pub fn try_write(&mut self, offset: usize, buf: &[u8]) -> (r: Result<(), MemError>)
        ensures
            final(self).affected == old(self).affected,
            final(self).offset == old(self).offset,
            final(self).region@.len() == old(self).region@.len(),
            match r {
                Ok(()) => offset + buf@.len() <= old(self).region@.len() && final(self).region@ == (
                old(self).region@.subrange(0, offset as int) + buf@ + old(self).region@.subrange(
                    offset + buf@.len(),
                    old(self).region@.len() as int,
                )),
                Err(e) => *final(self) == *old(self) && ((e == MemError::InvalidMemoryRegion && offset
                    > old(self).region@.len()) || (e == MemError::TooLongBuffer && offset <= old(self).region@.len() && offset + buf@.len() > old(self).region@.len())),
            },
    {
        if offset > self.region.len() {
            return Err(MemError::InvalidMemoryRegion);
        }
        if self.region.len() - offset < buf.len() {
            return Err(MemError::TooLongBuffer);
        }
        let n = buf.len();
        let mut i: usize = 0;
        while i < n
            invariant
                i <= n,
                n == buf@.len(),
                offset + n <= self.region@.len(),
                offset + n <= usize::MAX,
                self.region@.len() == old(self).region@.len(),
                self.affected == old(self).affected,
                self.offset == old(self).offset,
                forall|k: int|
                    0 <= k < self.region@.len() ==> self.region@[k] == (if offset <= k < offset
                        + i {
                        buf@[k - offset]
                    } else {
                        old(self).region@[k]
                    }),
            decreases n - i,
        {
            self.region[offset + i] = buf[i];
            i += 1;
        }
        assert(self.region@ =~= old(self).region@.subrange(0, offset as int) + buf@ + old(self).region@.subrange(offset + n, old(self).region@.len() as int));
        Ok(())
    }
}

} // verus!
