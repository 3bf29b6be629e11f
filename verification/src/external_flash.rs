//! Driver for the external serial NOR flash chip.
//!
//! The chip hangs off a QSPI-class peripheral bus. Every operation is one
//! or more bus transactions: the builders below produce the exact
//! transaction descriptor for each operation — what the peripheral's
//! configuration, address and alternate-byte registers are loaded with —
//! and the lifecycle-typed handle drives those transactions against the
//! chip model and proves the effect on the chip.
//!
//! Lifecycle: a handle starts `Uninitialized` (bus configured, chip still
//! asleep), becomes `Indirect` through `init`, and may move one way to
//! `MemoryMapped`. Only the `Indirect` handle exposes commands, programs
//! and erases; the move consumes the old handle, so no stale handle for a
//! prior regime stays reachable.
//!
//! All waits are unconditional polling loops with no timeout: a chip that
//! never clears its busy bit hangs the caller. Callers needing bounded
//! latency must supervise these calls from outside.

use core::marker::PhantomData;
use vstd::prelude::*;
use vstd::slice::slice_subrange;

use crate::flash_chip::{
    spec_instruction_byte, step, step_ok, overwrite, erased, ChipState, Command, FlashChip,
    instruction_byte,
};
use crate::geometry::{FLASH_ADDRESS_SIZE, FLASH_SIZE};
use crate::paging::{chunk_views, lemma_overwrite_append, program_chunks, spec_program_chunks};
use crate::qspi::{bus_cr_value, bus_dcr_value, QspiMode, QspiSize, QspiWidth, Transaction};

verus! {

/// First CPU address of the memory-mapped flash window.
pub const FLASH_START: u32 = 0x90000000;

/// One past the last CPU address of the memory-mapped flash window.
pub const FLASH_END: u32 = FLASH_START + FLASH_SIZE;

/// Lifecycle tag: bus configured, chip not yet woken. No commands can be
/// issued through a handle in this state except the initialization
/// sequence itself.
#[derive(Clone, Copy, Debug)]
pub struct Uninitialized;

/// Lifecycle tag: commands are issued explicitly, one transaction at a
/// time. The only state that programs, erases and command-reads.
#[derive(Clone, Copy, Debug)]
pub struct Indirect;

/// Lifecycle tag: the bus auto-generates read transactions for CPU loads
/// from the mapped window. One-way; no path back within this driver.
#[derive(Clone, Copy, Debug)]
pub struct MemoryMapped;

/// A transaction skeleton: the given functional mode and instruction sent
/// single-wide, and no other phase.
pub open spec fn spec_bare_tx(fmode: QspiMode, instruction: u8) -> Transaction {
    Transaction {
        fmode,
        instruction,
        imode: QspiWidth::Single,
        admode: QspiWidth::Skip,
        adsize: QspiSize::OneByte,
        address: None,
        abmode: QspiWidth::Skip,
        absize: QspiSize::OneByte,
        alternate: None,
        dmode: QspiWidth::Skip,
        dummy_cycles: 0,
        data_length: 0,
        sioo: false,
    }
}

fn bare_tx(fmode: QspiMode, instruction: u8) -> (r: Transaction)
    ensures
        r == spec_bare_tx(fmode, instruction),
{
    Transaction {
        fmode,
        instruction,
        imode: QspiWidth::Single,
        admode: QspiWidth::Skip,
        adsize: QspiSize::OneByte,
        address: None,
        abmode: QspiWidth::Skip,
        absize: QspiSize::OneByte,
        alternate: None,
        dmode: QspiWidth::Skip,
        dummy_cycles: 0,
        data_length: 0,
        sioo: false,
    }
}

/// A command in plain SPI mode, with an optional single alternate byte:
/// how the chip is spoken to before quad mode is enabled.
pub open spec fn spec_spi_command_tx(command: Command, data: Option<u8>) -> Transaction {
    let base = spec_bare_tx(QspiMode::IndirectWrite, spec_instruction_byte(command));
    if data is Some {
        Transaction {
            abmode: QspiWidth::Single,
            absize: QspiSize::OneByte,
            alternate: Some(data.unwrap() as u32),
            ..base
        }
    } else {
        base
    }
}

/// Builds the transaction for a command in plain SPI mode.
pub fn spi_command_tx(command: Command, data: Option<u8>) -> (r: Transaction)
    ensures
        r == spec_spi_command_tx(command, data),
{
    let base = bare_tx(QspiMode::IndirectWrite, instruction_byte(command));
    match data {
        Some(d) => Transaction {
            abmode: QspiWidth::Single,
            absize: QspiSize::OneByte,
            alternate: Some(d as u32),
            ..base
        },
        None => base,
    }
}

/// A bare instruction with no address, alternate or data phase.
pub open spec fn spec_command_tx(command: Command) -> Transaction {
    spec_bare_tx(QspiMode::IndirectWrite, spec_instruction_byte(command))
}

/// Builds the transaction for a bare instruction.
pub fn command_tx(command: Command) -> (r: Transaction)
    ensures
        r == spec_command_tx(command),
{
    bare_tx(QspiMode::IndirectWrite, instruction_byte(command))
}

/// A one-byte quad-wide status-register read.
pub open spec fn spec_read_status_tx(command: Command) -> Transaction {
    Transaction {
        dmode: QspiWidth::Quad,
        data_length: 1,
        ..spec_bare_tx(QspiMode::IndirectRead, spec_instruction_byte(command))
    }
}

/// Builds the transaction for a status-register read.
pub fn read_status_tx(command: Command) -> (r: Transaction)
    ensures
        r == spec_read_status_tx(command),
{
    Transaction {
        dmode: QspiWidth::Quad,
        data_length: 1,
        ..bare_tx(QspiMode::IndirectRead, instruction_byte(command))
    }
}

/// The identification read: three quad-wide address bytes of zero, then
/// two quad-wide data bytes clocked in.
pub open spec fn spec_read_ids_tx() -> Transaction {
    Transaction {
        admode: QspiWidth::Quad,
        adsize: QspiSize::ThreeBytes,
        address: Some(0u32),
        dmode: QspiWidth::Quad,
        data_length: 2,
        ..spec_bare_tx(QspiMode::IndirectRead, spec_instruction_byte(Command::ReadIds))
    }
}

/// Builds the identification-read transaction.
pub fn read_ids_tx() -> (r: Transaction)
    ensures
        r == spec_read_ids_tx(),
{
    Transaction {
        admode: QspiWidth::Quad,
        adsize: QspiSize::ThreeBytes,
        address: Some(0u32),
        dmode: QspiWidth::Quad,
        data_length: 2,
        ..bare_tx(QspiMode::IndirectRead, instruction_byte(Command::ReadIds))
    }
}

/// A fast read: three quad-wide address bytes, six dummy cycles, then
/// `length` quad-wide data bytes.
pub open spec fn spec_fast_read_tx(address: u32, length: u32) -> Transaction {
    Transaction {
        admode: QspiWidth::Quad,
        adsize: QspiSize::ThreeBytes,
        address: Some(address),
        dmode: QspiWidth::Quad,
        dummy_cycles: 6,
        data_length: length,
        ..spec_bare_tx(QspiMode::IndirectRead, spec_instruction_byte(Command::FastRead))
    }
}

/// Builds a fast-read transaction.
pub fn fast_read_tx(address: u32, length: u32) -> (r: Transaction)
    ensures
        r == spec_fast_read_tx(address, length),
{
    Transaction {
        admode: QspiWidth::Quad,
        adsize: QspiSize::ThreeBytes,
        address: Some(address),
        dmode: QspiWidth::Quad,
        dummy_cycles: 6,
        data_length: length,
        ..bare_tx(QspiMode::IndirectRead, instruction_byte(Command::FastRead))
    }
}

/// One page-program chunk: three quad-wide address bytes, then `length`
/// quad-wide data bytes driven out.
pub open spec fn spec_page_program_tx(address: u32, length: u32) -> Transaction {
    Transaction {
        admode: QspiWidth::Quad,
        adsize: QspiSize::ThreeBytes,
        address: Some(address),
        dmode: QspiWidth::Quad,
        data_length: length,
        ..spec_bare_tx(QspiMode::IndirectWrite, spec_instruction_byte(Command::PageProgram))
    }
}

/// Builds a page-program transaction.
pub fn page_program_tx(address: u32, length: u32) -> (r: Transaction)
    ensures
        r == spec_page_program_tx(address, length),
{
    Transaction {
        admode: QspiWidth::Quad,
        adsize: QspiSize::ThreeBytes,
        address: Some(address),
        dmode: QspiWidth::Quad,
        data_length: length,
        ..bare_tx(QspiMode::IndirectWrite, instruction_byte(Command::PageProgram))
    }
}

/// The smallest-granularity erase: the 4 KiB-block erase instruction with
/// a three-byte address and no data phase.
pub open spec fn spec_erase_4k_tx(address: u32) -> Transaction {
    Transaction {
        admode: QspiWidth::Quad,
        adsize: QspiSize::ThreeBytes,
        address: Some(address),
        ..spec_bare_tx(QspiMode::IndirectWrite, spec_instruction_byte(Command::Erase4KbyteBlock))
    }
}

/// Builds a 4 KiB-block erase transaction.
pub fn erase_4k_tx(address: u32) -> (r: Transaction)
    ensures
        r == spec_erase_4k_tx(address),
{
    Transaction {
        admode: QspiWidth::Quad,
        adsize: QspiSize::ThreeBytes,
        address: Some(address),
        ..bare_tx(QspiMode::IndirectWrite, instruction_byte(Command::Erase4KbyteBlock))
    }
}

/// The read-parameter write: one quad-wide alternate byte selecting six
/// dummy clocks and an eight-byte wrap.
pub open spec fn spec_set_read_parameters_tx() -> Transaction {
    Transaction {
        abmode: QspiWidth::Quad,
        absize: QspiSize::OneByte,
        alternate: Some(0b0010_0000u32),
        ..spec_bare_tx(QspiMode::IndirectWrite, spec_instruction_byte(Command::SetReadParameters))
    }
}

/// Builds the read-parameter transaction.
pub fn set_read_parameters_tx() -> (r: Transaction)
    ensures
        r == spec_set_read_parameters_tx(),
{
    Transaction {
        abmode: QspiWidth::Quad,
        absize: QspiSize::OneByte,
        alternate: Some(0b0010_0000u32),
        ..bare_tx(QspiMode::IndirectWrite, instruction_byte(Command::SetReadParameters))
    }
}

/// The memory-mapped configuration: quad fast reads with four dummy
/// cycles, a zero alternate byte, and the send-instruction-once bit set,
/// so the bus can auto-generate a read for any CPU load. The address
/// phase is driven but carries no fixed address: each load supplies one.
pub open spec fn spec_memory_mapped_tx() -> Transaction {
    Transaction {
        admode: QspiWidth::Quad,
        adsize: QspiSize::ThreeBytes,
        abmode: QspiWidth::Quad,
        absize: QspiSize::OneByte,
        alternate: Some(0u32),
        dmode: QspiWidth::Quad,
        dummy_cycles: 4,
        sioo: true,
        ..spec_bare_tx(QspiMode::MemoryMapped, spec_instruction_byte(Command::FastReadQuadIO))
    }
}

/// Builds the memory-mapped configuration transaction.
pub fn memory_mapped_tx() -> (r: Transaction)
    ensures
        r == spec_memory_mapped_tx(),
{
    Transaction {
        admode: QspiWidth::Quad,
        adsize: QspiSize::ThreeBytes,
        abmode: QspiWidth::Quad,
        absize: QspiSize::OneByte,
        alternate: Some(0u32),
        dmode: QspiWidth::Quad,
        dummy_cycles: 4,
        sioo: true,
        ..bare_tx(QspiMode::MemoryMapped, instruction_byte(Command::FastReadQuadIO))
    }
}

/// The bus bring-up register pair `(device configuration, control)`: the
/// chip's address size (2^23 bytes, encoded less one), a chip-select high
/// time of two cycles, clock idle high; prescaler three and the enable
/// bit. These are the values driven while a handle is created.
pub fn bus_configuration() -> (r: (u32, u32))
    ensures
        (r.0 >> 16) & 0b11111 == FLASH_ADDRESS_SIZE - 1,
        (r.0 >> 8) & 0b111 == 2,
        r.0 & 1 == 1,
        (r.1 >> 24) & 0xFF == 3,
        r.1 & 1 == 1,
{
    (bus_dcr_value(FLASH_ADDRESS_SIZE - 1, 2, true), bus_cr_value(3, true))
}

/// The external flash chip, as seen through a lifecycle-typed handle.
/// Exactly one handle exists per chip, and transitions consume it.
#[verifier::reject_recursive_types(MODE)]
pub struct ExternalFlash<MODE> {
    /// The chip this handle drives.
    pub chip: FlashChip,
    /// Whether the late-sample toggle of the bus is currently on. It
    /// compensates a known erratum: output pins are released late around
    /// the address-to-data turnaround, and the contention corrupts the
    /// first sampled bit. Reads that need it switch it on and back off.
    pub sshift_enabled: bool,
    /// The lifecycle tag; no run-time content.
    pub mode: PhantomData<MODE>,
}

impl<MODE> ExternalFlash<MODE> {
    /// The handle is sound: the chip covers the declared address space
    /// and the late-sample toggle is at its resting position.
    pub open spec fn wf(&self) -> bool {
        &&& self.chip@.wf()
        &&& !self.sshift_enabled
    }

    /// The handle is ready for commands: sound, and the chip is awake.
    pub open spec fn ready(&self) -> bool {
        &&& self.wf()
        &&& !self.chip@.deep_power_down
    }
}

impl ExternalFlash<Uninitialized> {
    /// Takes charge of the chip. On hardware this is where the bus pins
    /// and clocks are configured with the `bus_configuration` values; the
    /// chip itself has not been spoken to yet.
    pub fn new(chip: FlashChip) -> (r: ExternalFlash<Uninitialized>)
        requires
            chip@.wf(),
        ensures
            r.wf(),
            r.chip@ == chip@,
    {
        ExternalFlash { chip, sshift_enabled: false, mode: PhantomData }
    }

    /// Turns on the chip and tells it to switch to quad mode: wake from
    /// deep power-down (on hardware, a settle delay follows), enable a
    /// volatile status write, set the quad-enable bit in the second
    /// status register, and wait until the bus goes idle.
    #[must_use]
    pub fn init(self) -> (r: ExternalFlash<Indirect>)
        requires
            self.wf(),
        ensures
            r.ready(),
            r.chip@ == (ChipState {
                deep_power_down: false,
                status_register2: 2,
                write_enabled: false,
                volatile_write_enabled: false,
                ..self.chip@
            }),
    {
        let mut this = self;

        // Turn on the chip.
        this.send_spi_command(Command::ReleaseDeepPowerDown, None);

        // Enable writing to the chip so that the status register can be
        // changed.
        this.send_spi_command(Command::WriteEnableVolatile, None);

        // Set the quad-enable bit in the chip's second status register.
        this.send_spi_command(Command::WriteStatusRegister2, Some(0x02));

        // The transaction has completed before `execute` returns; on
        // hardware the bus busy flag is polled until it clears here.
        ExternalFlash { chip: this.chip, sshift_enabled: this.sshift_enabled, mode: PhantomData }
    }

    /// Sends a command with optional data in plain SPI mode.
    fn send_spi_command(&mut self, command: Command, data: Option<u8>)
        requires
            step_ok(old(self).chip@, spec_spi_command_tx(command, data), Seq::<u8>::empty()),
        ensures
            final(self).chip@ == step(
                old(self).chip@,
                spec_spi_command_tx(command, data),
                Seq::<u8>::empty(),
            ).0,
            final(self).sshift_enabled == old(self).sshift_enabled,
    {
        let t = spi_command_tx(command, data);
        let no_data: Vec<u8> = Vec::new();
        let _ = self.chip.execute(&t, no_data.as_slice());
        // On hardware the bus busy flag is polled until it clears here.
    }
}

impl ExternalFlash<Indirect> {
    /// Reads the manufacturer and device IDs.
    ///
    /// The first value is the manufacturer ID and the second one is the
    /// device ID. This read needs the late-sample toggle against the
    /// turnaround erratum; it is switched on for the transaction and back
    /// off afterwards, so it cannot leak into transactions that do not
    /// want it.
    pub fn read_ids(&mut self) -> (r: (u8, u8))
        requires
            old(self).ready(),
        ensures
            final(self).ready(),
            final(self).chip@ == old(self).chip@,
            r == (old(self).chip@.manufacturer_id, old(self).chip@.device_id),
    {
        self.sshift_enabled = true;
        let t = read_ids_tx();
        let no_data: Vec<u8> = Vec::new();
        let out = self.chip.execute(&t, no_data.as_slice());
        // On hardware the bus busy flag is polled until it clears here.
        self.sshift_enabled = false;
        (out[0], out[1])
    }

    /// Reads status register 1. Bit 0 is the chip's busy bit, bit 1 its
    /// write-enable latch.
    pub fn read_status_register1(&mut self) -> (r: u8)
        requires
            old(self).ready(),
        ensures
            final(self).ready(),
            final(self).chip@ == old(self).chip@,
            r == old(self).chip@.status_register1(),
    {
        self.read_status_register(Command::ReadStatusRegister1)
    }

    /// Reads status register 2. Bit 1 is the quad-enable bit.
    pub fn read_status_register2(&mut self) -> (r: u8)
        requires
            old(self).ready(),
        ensures
            final(self).ready(),
            final(self).chip@ == old(self).chip@,
            r == old(self).chip@.status_register2,
    {
        self.read_status_register(Command::ReadStatusRegister2)
    }

    /// Issues a one-byte status read for either status register.
    fn read_status_register(&mut self, command: Command) -> (r: u8)
        requires
            old(self).ready(),
            command == Command::ReadStatusRegister1 || command == Command::ReadStatusRegister2,
        ensures
            final(self).ready(),
            final(self).chip@ == old(self).chip@,
            command == Command::ReadStatusRegister1 ==> r == old(self).chip@.status_register1(),
            command == Command::ReadStatusRegister2 ==> r == old(self).chip@.status_register2,
    {
        let t = read_status_tx(command);
        let no_data: Vec<u8> = Vec::new();
        let out = self.chip.execute(&t, no_data.as_slice());
        // On hardware the bus busy flag is polled until it clears here.
        out[0]
    }

    /// Reads bytes until the buffer is full: one fast-read transaction
    /// sized to the buffer, filling it in address order.
    ///
    /// `address` is an absolute byte offset into the chip's linear space;
    /// the whole range must lie inside it.
    pub fn read_bytes(&mut self, address: u32, buffer: &mut Vec<u8>)
        requires
            old(self).ready(),
            address + old(buffer)@.len() <= FLASH_SIZE,
        ensures
            final(self).ready(),
            final(self).chip@ == old(self).chip@,
            final(buffer)@ == old(self).chip@.mem.subrange(
                address as int,
                address + old(buffer)@.len(),
            ),
    {
        let n = buffer.len();
        let t = fast_read_tx(address, n as u32);
        let no_data: Vec<u8> = Vec::new();
        let out = self.chip.execute(&t, no_data.as_slice());
        *buffer = out;
        // On hardware the bus busy flag is polled until it clears here.
    }

    /// Programs a byte range, splitting it at page boundaries.
    ///
    /// Let `offset = address mod page size`: the first chunk is at most
    /// `page size - offset` bytes, every later chunk at most a whole
    /// page. Each chunk is preceded by its own write-enable — the chip
    /// clears the latch after every program — and the operation ends by
    /// waiting until the chip reports itself idle.
    pub fn program_page(&mut self, address: u32, data: &[u8])
        requires
            old(self).ready(),
            address + data@.len() <= FLASH_SIZE,
        ensures
            final(self).ready(),
            final(self).chip@ == (ChipState {
                mem: overwrite(old(self).chip@.mem, address as int, data@),
                write_enabled: if data@.len() == 0 {
                    old(self).chip@.write_enabled
                } else {
                    false
                },
                ..old(self).chip@
            }),
    {
        let ghost c0 = self.chip@;
        let ghost addr0 = address as int;
        let ghost dlen = data@.len() as int;
        proof {
            assert(overwrite(c0.mem, addr0, data@.take(0)) =~= c0.mem);
            assert(self.chip@ == (ChipState {
                mem: overwrite(c0.mem, addr0, data@.take(0)),
                write_enabled: c0.write_enabled,
                ..c0
            }));
        }
        let chunks = program_chunks(address, data.len() as u32);
        let ghost plan = spec_program_chunks(addr0, dlen);
        let mut i: usize = 0;
        let mut start: usize = 0;
        proof {
            assert(chunk_views(chunks@).skip(0) =~= spec_program_chunks(addr0, dlen));
        }
        while i < chunks.len()
            invariant
                i <= chunks@.len(),
                chunk_views(chunks@) == plan,
                plan == spec_program_chunks(addr0, dlen),
                dlen == data@.len(),
                addr0 >= 0,
                addr0 + dlen <= FLASH_SIZE,
                start <= dlen,
                chunk_views(chunks@).skip(i as int) == spec_program_chunks(
                    addr0 + start,
                    dlen - start,
                ),
                self.ready(),
                self.chip@ == (ChipState {
                    mem: overwrite(c0.mem, addr0, data@.take(start as int)),
                    write_enabled: if i == 0 {
                        c0.write_enabled
                    } else {
                        false
                    },
                    ..c0
                }),
            decreases chunks@.len() - i,
        {
            let pair = chunks[i];
            let a = pair.0;
            let c = pair.1;
            proof {
                // The chunk the plan hands out is the canonical one for
                // the range still to program: it starts where the
                // programmed prefix ends and stays inside one page.
                let rem = spec_program_chunks(addr0 + start, dlen - start);
                assert(rem.len() > 0);
                assert(rem[0] == chunk_views(chunks@)[i as int]);
                assert(rem[0] == (a as int, c as int));
                assert(a == addr0 + start);
                assert(1 <= c && a % 256 + c <= 256 && start + c <= dlen);
                assert(chunk_views(chunks@).skip(i as int).skip(1) =~= chunk_views(
                    chunks@,
                ).skip(i as int + 1));
                assert((seq![(a as int, c as int)] + spec_program_chunks(
                    addr0 + start + c,
                    dlen - start - c,
                )).skip(1) =~= spec_program_chunks(addr0 + start + c, dlen - start - c));
            }

            self.write_enable();

            let t = page_program_tx(a, c);
            let chunk = slice_subrange(data, start, start + c as usize);
            let _ = self.chip.execute(&t, chunk);
            proof {
                assert(chunk@ =~= data@.subrange(start as int, start + c));
                lemma_overwrite_append(c0.mem, addr0, data@.take(start as int), chunk@);
                assert(data@.take(start as int) + data@.subrange(start as int, start + c)
                    =~= data@.take(start + c));
            }

            start = start + c as usize;
            i = i + 1;

            // On hardware the bus busy flag is polled until it clears
            // here, once per chunk.
        }
        proof {
            assert(chunk_views(chunks@).skip(i as int) =~= Seq::<(int, int)>::empty());
            assert(start == dlen);
            assert(data@.take(data@.len() as int) =~= data@);
            if dlen > 0 {
                assert(plan.len() > 0);
            }
        }
        self.wait_busy();
    }

    /// Enables writing: sets the chip's write-enable latch.
    pub fn write_enable(&mut self)
        requires
            old(self).ready(),
        ensures
            final(self).ready(),
            final(self).chip@ == (ChipState { write_enabled: true, ..old(self).chip@ }),
    {
        self.command(Command::WriteEnable);
    }

    /// Disables writing — in name. This issues the same write-enable
    /// instruction as `write_enable`, not a write-disable: the contract
    /// records the latch as set afterwards. The chip clears the latch by
    /// itself after every program or erase command, which makes an
    /// explicit disable largely redundant; whether that excuses the
    /// shared instruction is deliberately left visible here rather than
    /// silently repaired.
    pub fn write_disable(&mut self)
        requires
            old(self).ready(),
        ensures
            final(self).ready(),
            final(self).chip@ == (ChipState { write_enabled: true, ..old(self).chip@ }),
    {
        self.command(Command::WriteEnable);
    }

    /// Erases the whole chip to 0xFF, then waits until the chip-level
    /// busy bit clears. The latch is set first, since the chip honors an
    /// erase only while the write-enable latch is set. On hardware this
    /// takes tens of seconds: not for time-sensitive paths.
    pub fn chip_erase(&mut self)
        requires
            old(self).ready(),
        ensures
            final(self).ready(),
            final(self).chip@ == (ChipState {
                mem: erased(old(self).chip@.mem, 0, old(self).chip@.mem.len() as int),
                write_enabled: false,
                ..old(self).chip@
            }),
    {
        self.write_enable();
        self.command(Command::ChipErase);
        self.wait_busy();
    }

    /// Erases the 4 KiB block containing `address` to 0xFF, then waits
    /// for both busy signals: the bus's transaction flag and the chip's
    /// own erase-in-progress bit, which can clear later. The latch is set
    /// first, since the chip honors an erase only while the write-enable
    /// latch is set.
    pub fn block_erase_4k(&mut self, address: u32)
        requires
            old(self).ready(),
            address < FLASH_SIZE,
        ensures
            final(self).ready(),
            final(self).chip@ == (ChipState {
                mem: erased(
                    old(self).chip@.mem,
                    address as int / 4096 * 4096,
                    address as int / 4096 * 4096 + 4096,
                ),
                write_enabled: false,
                ..old(self).chip@
            }),
    {
        self.write_enable();
        let t = erase_4k_tx(address);
        let no_data: Vec<u8> = Vec::new();
        let _ = self.chip.execute(&t, no_data.as_slice());
        // On hardware the bus busy flag is polled until it clears here.
        self.wait_busy();
    }

    /// Issues a bare instruction with no address or data phase.
    fn command(&mut self, command: Command)
        requires
            old(self).ready(),
            step_ok(old(self).chip@, spec_command_tx(command), Seq::<u8>::empty()),
        ensures
            final(self).sshift_enabled == old(self).sshift_enabled,
            final(self).chip@ == step(
                old(self).chip@,
                spec_command_tx(command),
                Seq::<u8>::empty(),
            ).0,
    {
        let t = command_tx(command);
        let no_data: Vec<u8> = Vec::new();
        let _ = self.chip.execute(&t, no_data.as_slice());
        // On hardware the bus busy flag is polled until it clears here.
    }

    /// Waits until the chip's busy bit is cleared, polling status
    /// register 1. There is no timeout: a chip that never reports idle
    /// hangs the caller, deliberately.
    fn wait_busy(&mut self)
        requires
            old(self).ready(),
        ensures
            final(self).ready(),
            final(self).chip@ == old(self).chip@,
    {
        let mut sr = self.read_status_register1();
        proof {
            assert(sr & 0x01 == 0) by (bit_vector)
                requires
                    sr == 0 || sr == 2,
            ;
        }
        while sr & 0x01 != 0
            invariant
                sr & 0x01 == 0,
                self.ready(),
                self.chip@ == old(self).chip@,
            decreases sr,
        {
            sr = self.read_status_register1();
        }
    }

    /// Writes the chip's read-parameter byte: six dummy clocks and an
    /// eight-byte wrap, matching the bus clock in use.
    pub fn set_read_parameters(&mut self)
        requires
            old(self).ready(),
        ensures
            final(self).ready(),
            final(self).chip@ == (ChipState { read_parameters: 0x20, ..old(self).chip@ }),
    {
        let t = set_read_parameters_tx();
        let no_data: Vec<u8> = Vec::new();
        let _ = self.chip.execute(&t, no_data.as_slice());
        // On hardware the bus busy flag is polled until it clears here.
    }

    /// Reconfigures the bus for auto-generated quad fast reads and hands
    /// the chip over to memory-mapped use. One-way: there is no path back
    /// to `Indirect`, since leaving memory-mapped mode would race any
    /// in-flight CPU fetch from the mapped window. Programs and erases
    /// are unreachable from the new handle.
    pub fn into_memory_mapped(self) -> (r: ExternalFlash<MemoryMapped>)
        requires
            self.ready(),
        ensures
            r.ready(),
            r.chip@ == self.chip@,
    {
        // On hardware the `memory_mapped_tx` descriptor is driven into
        // the bus configuration register here, with a zero alternate
        // byte.
        ExternalFlash { chip: self.chip, sshift_enabled: self.sshift_enabled, mode: PhantomData }
    }
}

impl ExternalFlash<MemoryMapped> {
    /// One CPU load from the mapped window: the bus auto-generates a read
    /// transaction for `address` and returns the byte there.
    pub fn read_mapped(&self, address: u32) -> (r: u8)
        requires
            self.ready(),
            address < FLASH_SIZE,
        ensures
            r == self.chip@.mem[address as int],
    {
        self.chip.memory[address as usize]
    }
}

} // verus!
