//! Backend of the USB firmware-update class: byte-exact read, program and
//! erase over the external flash, one transfer buffer at a time.
//!
//! The USB class machinery itself (descriptors, the update protocol state
//! machine) lives outside this crate and calls in here with plain
//! addresses and lengths.

use vstd::prelude::*;
use vstd::slice::slice_subrange;

use crate::external_flash::{ExternalFlash, Indirect};
use crate::flash_chip::{erased, overwrite, ChipState};
use crate::geometry::FLASH_SIZE;

verus! {

/// Number of bytes one update transfer moves.
pub const TRANSFER_SIZE: u16 = 128;

/// The firmware-update backend: a transfer buffer and the flash handle in
/// its command-issuing state.
pub struct QspiDfu {
    /// Scratch buffer holding one transfer, `TRANSFER_SIZE` bytes.
    pub buffer: Vec<u8>,
    /// The flash chip, held in the indirect (command-issuing) regime.
    pub qspi: ExternalFlash<Indirect>,
}

impl QspiDfu {
    /// The backend is sound: a full-size buffer over a ready flash handle.
    pub open spec fn wf(&self) -> bool {
        &&& self.buffer@.len() == TRANSFER_SIZE
        &&& self.qspi.ready()
    }

    /// A backend over the given flash handle, with a zeroed buffer.
    pub fn new(qspi: ExternalFlash<Indirect>) -> (r: QspiDfu)
        requires
            qspi.ready(),
        ensures
            r.wf(),
            r.qspi == qspi,
            r.buffer@ == Seq::new(TRANSFER_SIZE as nat, |i: int| 0u8),
    {
        let mut buffer: Vec<u8> = Vec::new();
        let mut i: u16 = 0;
        while i < TRANSFER_SIZE
            invariant
                i <= TRANSFER_SIZE,
                buffer@.len() == i,
                forall|k: int| 0 <= k < i ==> buffer@[k] == 0u8,
            decreases TRANSFER_SIZE - i,
        {
            buffer.push(0);
            i = i + 1;
        }
        proof {
            assert(buffer@ =~= Seq::new(TRANSFER_SIZE as nat, |k: int| 0u8));
        }
        QspiDfu { buffer, qspi }
    }

    /// Stores the next transfer into the front of the buffer; the rest of
    /// the buffer keeps its old contents. Always succeeds for a transfer
    /// that fits the buffer.
    pub fn store_write_buffer(&mut self, src: &[u8]) -> (r: Result<(), ()>)
        requires
            old(self).wf(),
            src@.len() <= TRANSFER_SIZE,
        ensures
            final(self).wf(),
            final(self).qspi == old(self).qspi,
            final(self).buffer@ == src@ + old(self).buffer@.skip(src@.len() as int),
            r is Ok,
    {
        let mut i: usize = 0;
        while i < src.len()
            invariant
                i <= src@.len(),
                src@.len() <= self.buffer@.len(),
                self.buffer@.len() == old(self).buffer@.len(),
                forall|k: int| 0 <= k < i ==> self.buffer@[k] == src@[k],
                forall|k: int|
                    i <= k < self.buffer@.len() ==> self.buffer@[k] == old(self).buffer@[k],
                self.qspi == old(self).qspi,
            decreases src@.len() - i,
        {
            self.buffer.set(i, src[i]);
            i = i + 1;
        }
        proof {
            assert(self.buffer@ =~= src@ + old(self).buffer@.skip(src@.len() as int));
        }
        Ok(())
    }

    /// Reads `length` bytes at `address` from the chip, filling the
    /// transfer out of the flash. Always succeeds for an in-range,
    /// buffer-sized request.
    pub fn read(&mut self, address: u32, length: usize) -> (r: Result<Vec<u8>, ()>)
        requires
            old(self).wf(),
            length <= TRANSFER_SIZE,
            address + length <= FLASH_SIZE,
        ensures
            final(self).wf(),
            final(self).buffer@ == old(self).buffer@,
            final(self).qspi.chip@ == old(self).qspi.chip@,
            r matches Ok(bytes) && bytes@ == old(self).qspi.chip@.mem.subrange(
                address as int,
                address + length,
            ),
    {
        let mut out: Vec<u8> = Vec::new();
        let mut i: usize = 0;
        while i < length
            invariant
                i <= length,
                out@.len() == i,
            decreases length - i,
        {
            out.push(0);
            i = i + 1;
        }
        self.qspi.read_bytes(address, &mut out);
        Ok(out)
    }

    /// Programs the first `length` buffered bytes at `address`, split at
    /// page boundaries by the flash driver. Always succeeds for an
    /// in-range, buffer-sized request.
    pub fn program(&mut self, address: u32, length: usize) -> (r: Result<(), ()>)
        requires
            old(self).wf(),
            length <= TRANSFER_SIZE,
            address + length <= FLASH_SIZE,
        ensures
            final(self).wf(),
            final(self).buffer@ == old(self).buffer@,
            final(self).qspi.chip@ == (ChipState {
                mem: overwrite(
                    old(self).qspi.chip@.mem,
                    address as int,
                    old(self).buffer@.take(length as int),
                ),
                write_enabled: if length == 0 {
                    old(self).qspi.chip@.write_enabled
                } else {
                    false
                },
                ..old(self).qspi.chip@
            }),
            r is Ok,
    {
        let chunk = slice_subrange(self.buffer.as_slice(), 0, length);
        self.qspi.program_page(address, chunk);
        proof {
            assert(chunk@ =~= old(self).buffer@.take(length as int));
        }
        Ok(())
    }

    /// Erases the 4 KiB block containing `address`. Always succeeds for
    /// an in-range address.
    pub fn erase(&mut self, address: u32) -> (r: Result<(), ()>)
        requires
            old(self).wf(),
            address < FLASH_SIZE,
        ensures
            final(self).wf(),
            final(self).buffer@ == old(self).buffer@,
            final(self).qspi.chip@ == (ChipState {
                mem: erased(
                    old(self).qspi.chip@.mem,
                    address as int / 4096 * 4096,
                    address as int / 4096 * 4096 + 4096,
                ),
                write_enabled: false,
                ..old(self).qspi.chip@
            }),
            r is Ok,
    {
        self.qspi.block_erase_4k(address);
        Ok(())
    }

    /// Erases nothing and reports success: whole-image erase is handled
    /// block by block through `erase`, so this is deliberately a no-op.
    pub fn erase_all(&mut self) -> (r: Result<(), ()>)
        requires
            old(self).wf(),
        ensures
            final(self).wf(),
            final(self).buffer@ == old(self).buffer@,
            final(self).qspi.chip@ == old(self).qspi.chip@,
            r is Ok,
    {
        Ok(())
    }

    /// The update is complete; nothing is left to flush, so this only
    /// reports success.
    pub fn manifestation(&mut self) -> (r: Result<(), ()>)
        requires
            old(self).wf(),
        ensures
            final(self).wf(),
            final(self).buffer@ == old(self).buffer@,
            final(self).qspi.chip@ == old(self).qspi.chip@,
            r is Ok,
    {
        Ok(())
    }
}

} // verus!
