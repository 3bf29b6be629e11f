//! Golden model of the external serial NOR flash chip.
//!
//! `FlashChip` stands in for the physical array: a byte memory, the
//! identification pair, the second status register, the write-enable
//! latches and the deep power-down flag. `step` is the chip's reaction to
//! one bus transaction, written as a single spec function; the executable
//! `execute` is proved to follow it exactly. The driver is verified against
//! this model, so every driver contract means: on a chip that behaves as
//! the data sheet says, the operation has this effect.
//!
//! Operations complete synchronously here, so the chip-level busy bit reads
//! as clear; on hardware the same bit is polled until it clears, and the
//! driver keeps that polling loop.

use vstd::prelude::*;

use crate::geometry::FLASH_SIZE;
use crate::qspi::Transaction;

verus! {

/// Commands (instructions) that can be sent to the flash chip.
#[derive(Clone, Copy, Debug, PartialEq, Eq, Structural)]
pub enum Command {
    ReadStatusRegister1,
    ReadStatusRegister2,
    WriteStatusRegister,
    WriteStatusRegister2,
    WriteEnable,
    WriteEnableVolatile,
    ReadData,
    FastRead,
    FastReadQuadIO,
    PageProgram,
    QuadPageProgram,
    EnableQPI,
    EnableReset,
    Reset,
    ChipErase,
    Erase4KbyteBlock,
    Erase32KbyteBlock,
    Erase64KbyteBlock,
    SetReadParameters,
    DeepPowerDown,
    ReleaseDeepPowerDown,
    ReadIds,
    ReadJEDECID,
}

/// The instruction byte that encodes each command on the bus.
pub open spec fn spec_instruction_byte(c: Command) -> u8 {
    match c {
        Command::ReadStatusRegister1 => 0x05,
        Command::ReadStatusRegister2 => 0x35,
        Command::WriteStatusRegister => 0x01,
        Command::WriteStatusRegister2 => 0x31,
        Command::WriteEnable => 0x06,
        Command::WriteEnableVolatile => 0x50,
        Command::ReadData => 0x03,
        Command::FastRead => 0x0B,
        Command::FastReadQuadIO => 0xEB,
        Command::PageProgram => 0x02,
        Command::QuadPageProgram => 0x33,
        Command::EnableQPI => 0x38,
        Command::EnableReset => 0x66,
        Command::Reset => 0x99,
        Command::ChipErase => 0xC7,
        Command::Erase4KbyteBlock => 0x20,
        Command::Erase32KbyteBlock => 0x52,
        Command::Erase64KbyteBlock => 0xD8,
        Command::SetReadParameters => 0xC0,
        Command::DeepPowerDown => 0xB9,
        Command::ReleaseDeepPowerDown => 0xAB,
        Command::ReadIds => 0x90,
        Command::ReadJEDECID => 0x9F,
    }
}

/// Executable form of [`spec_instruction_byte`].
pub fn instruction_byte(c: Command) -> (r: u8)
    ensures
        r == spec_instruction_byte(c),
{
    match c {
        Command::ReadStatusRegister1 => 0x05,
        Command::ReadStatusRegister2 => 0x35,
        Command::WriteStatusRegister => 0x01,
        Command::WriteStatusRegister2 => 0x31,
        Command::WriteEnable => 0x06,
        Command::WriteEnableVolatile => 0x50,
        Command::ReadData => 0x03,
        Command::FastRead => 0x0B,
        Command::FastReadQuadIO => 0xEB,
        Command::PageProgram => 0x02,
        Command::QuadPageProgram => 0x33,
        Command::EnableQPI => 0x38,
        Command::EnableReset => 0x66,
        Command::Reset => 0x99,
        Command::ChipErase => 0xC7,
        Command::Erase4KbyteBlock => 0x20,
        Command::Erase32KbyteBlock => 0x52,
        Command::Erase64KbyteBlock => 0xD8,
        Command::SetReadParameters => 0xC0,
        Command::DeepPowerDown => 0xB9,
        Command::ReleaseDeepPowerDown => 0xAB,
        Command::ReadIds => 0x90,
        Command::ReadJEDECID => 0x9F,
    }
}

/// Mathematical state of the chip.
#[verifier::ext_equal]
pub ghost struct ChipState {
    /// The byte array, one cell per address.
    pub mem: Seq<u8>,
    /// Manufacturer identification byte.
    pub manufacturer_id: u8,
    /// Device identification byte.
    pub device_id: u8,
    /// The second status register; its bit 1 is the quad-enable bit.
    pub status_register2: u8,
    /// The write-enable latch; programs and erases are permitted only
    /// while it is set, and it clears itself after each one.
    pub write_enabled: bool,
    /// The volatile write-enable latch, permitting a volatile status write.
    pub volatile_write_enabled: bool,
    /// Whether the chip rests in deep power-down and ignores commands.
    pub deep_power_down: bool,
    /// The read-parameter byte (dummy-cycle and wrap configuration).
    pub read_parameters: u8,
}

impl ChipState {
    /// The model covers exactly the declared address space.
    pub open spec fn wf(self) -> bool {
        self.mem.len() == FLASH_SIZE
    }

    /// The first status register, as the chip computes it: bit 0 is the
    /// busy bit — always clear here, since model operations complete at
    /// once — and bit 1 mirrors the write-enable latch.
    pub open spec fn status_register1(self) -> u8 {
        if self.write_enabled {
            2
        } else {
            0
        }
    }
}

/// `mem` with `data` written over the range starting at `addr`.
pub open spec fn overwrite(mem: Seq<u8>, addr: int, data: Seq<u8>) -> Seq<u8> {
    Seq::new(
        mem.len(),
        |i: int|
            if addr <= i < addr + data.len() {
                data[i - addr]
            } else {
                mem[i]
            },
    )
}

/// `mem` with every byte in `[lo, hi)` reset to the erased value 0xFF.
pub open spec fn erased(mem: Seq<u8>, lo: int, hi: int) -> Seq<u8> {
    Seq::new(
        mem.len(),
        |i: int|
            if lo <= i < hi {
                0xFFu8
            } else {
                mem[i]
            },
    )
}

/// A sequence of `n` zero bytes: what a read clocks in when the chip
/// stays silent.
pub open spec fn zero_bytes(n: nat) -> Seq<u8> {
    Seq::new(n, |i: int| 0u8)
}

/// Whether transaction `t` with write payload `din` is one the model
/// gives a meaning to in state `s`: the optional fields its instruction
/// needs are present, its data length matches, and its addresses lie in
/// the chip's address space.
pub open spec fn step_ok(s: ChipState, t: Transaction, din: Seq<u8>) -> bool {
    let i = t.instruction;
    let a = t.address.unwrap() as int;
    &&& t.wf()
    &&& din.len() > 0 ==> i == spec_instruction_byte(Command::PageProgram)
    &&& i == spec_instruction_byte(Command::ReadStatusRegister1) ==> t.data_length == 1
    &&& i == spec_instruction_byte(Command::ReadStatusRegister2) ==> t.data_length == 1
    &&& i == spec_instruction_byte(Command::ReadIds) ==> t.data_length == 2 && t.address
        == Some(0u32)
    &&& i == spec_instruction_byte(Command::FastRead) ==> t.address is Some && a
        + t.data_length <= s.mem.len()
    &&& i == spec_instruction_byte(Command::PageProgram) ==> t.address is Some && din.len()
        == t.data_length && 1 <= din.len() && a + din.len() <= s.mem.len() && a % 256 + din.len()
        <= 256
    &&& i == spec_instruction_byte(Command::Erase4KbyteBlock) ==> t.address is Some && a
        < s.mem.len() && s.mem.len() % 4096 == 0
    &&& i == spec_instruction_byte(Command::WriteStatusRegister2) ==> t.alternate is Some
    &&& i == spec_instruction_byte(Command::SetReadParameters) ==> t.alternate is Some
}

/// The chip's reaction to one transaction: the next state and the bytes
/// clocked out. In deep power-down every command except the release is
/// ignored; programs and erases take effect only while the write-enable
/// latch is set, and clear the latch either way, as the data sheet says
/// the latch self-clears after each program or erase command. Commands
/// the driver never issues leave the state unchanged.
pub open spec fn step(s: ChipState, t: Transaction, din: Seq<u8>) -> (ChipState, Seq<u8>) {
    let i = t.instruction;
    let a = t.address.unwrap() as int;
    let none = Seq::<u8>::empty();
    if s.deep_power_down {
        if i == spec_instruction_byte(Command::ReleaseDeepPowerDown) {
            (ChipState { deep_power_down: false, ..s }, none)
        } else {
            (s, zero_bytes(t.data_length as nat))
        }
    } else if i == spec_instruction_byte(Command::WriteEnable) {
        (ChipState { write_enabled: true, ..s }, none)
    } else if i == spec_instruction_byte(Command::WriteEnableVolatile) {
        (ChipState { volatile_write_enabled: true, ..s }, none)
    } else if i == spec_instruction_byte(Command::WriteStatusRegister2) {
        if s.write_enabled || s.volatile_write_enabled {
            (
                ChipState {
                    status_register2: t.alternate.unwrap() as u8,
                    write_enabled: false,
                    volatile_write_enabled: false,
                    ..s
                },
                none,
            )
        } else {
            (s, none)
        }
    } else if i == spec_instruction_byte(Command::ReadStatusRegister1) {
        (s, seq![s.status_register1()])
    } else if i == spec_instruction_byte(Command::ReadStatusRegister2) {
        (s, seq![s.status_register2])
    } else if i == spec_instruction_byte(Command::ReadIds) {
        (s, seq![s.manufacturer_id, s.device_id])
    } else if i == spec_instruction_byte(Command::FastRead) {
        (s, s.mem.subrange(a, a + t.data_length))
    } else if i == spec_instruction_byte(Command::PageProgram) {
        if s.write_enabled {
            (ChipState { mem: overwrite(s.mem, a, din), write_enabled: false, ..s }, none)
        } else {
            (s, none)
        }
    } else if i == spec_instruction_byte(Command::Erase4KbyteBlock) {
        if s.write_enabled {
            let base = a / 4096 * 4096;
            (ChipState { mem: erased(s.mem, base, base + 4096), write_enabled: false, ..s }, none)
        } else {
            (s, none)
        }
    } else if i == spec_instruction_byte(Command::ChipErase) {
        if s.write_enabled {
            (ChipState { mem: erased(s.mem, 0, s.mem.len() as int), write_enabled: false, ..s },
            none)
        } else {
            (s, none)
        }
    } else if i == spec_instruction_byte(Command::SetReadParameters) {
        (ChipState { read_parameters: t.alternate.unwrap() as u8, ..s }, none)
    } else if i == spec_instruction_byte(Command::DeepPowerDown) {
        (ChipState { deep_power_down: true, ..s }, none)
    } else {
        (s, zero_bytes(t.data_length as nat))
    }
}

/// The simulated flash array.
pub struct FlashChip {
    /// One byte per address of the linear space.
    pub memory: Vec<u8>,
    /// Manufacturer identification byte.
    pub manufacturer_id: u8,
    /// Device identification byte.
    pub device_id: u8,
    /// The second status register.
    pub status_register2: u8,
    /// The write-enable latch.
    pub write_enabled: bool,
    /// The volatile write-enable latch.
    pub volatile_write_enabled: bool,
    /// Whether the chip rests in deep power-down.
    pub deep_power_down: bool,
    /// The read-parameter byte.
    pub read_parameters: u8,
}

impl View for FlashChip {
    type V = ChipState;

    open spec fn view(&self) -> ChipState {
        ChipState {
            mem: self.memory@,
            manufacturer_id: self.manufacturer_id,
            device_id: self.device_id,
            status_register2: self.status_register2,
            write_enabled: self.write_enabled,
            volatile_write_enabled: self.volatile_write_enabled,
            deep_power_down: self.deep_power_down,
            read_parameters: self.read_parameters,
        }
    }
}

impl FlashChip {
    /// A fresh chip: fully erased memory, the given identification pair,
    /// all latches clear, resting in deep power-down until woken.
    pub fn new(manufacturer_id: u8, device_id: u8) -> (r: FlashChip)
        ensures
            r@.wf(),
            r@.mem == Seq::new(FLASH_SIZE as nat, |i: int| 0xFFu8),
            r@.manufacturer_id == manufacturer_id,
            r@.device_id == device_id,
            r@.status_register2 == 0,
            !r@.write_enabled,
            !r@.volatile_write_enabled,
            r@.deep_power_down,
            r@.read_parameters == 0,
    {
        let mut memory: Vec<u8> = Vec::new();
        let mut i: u32 = 0;
        while i < FLASH_SIZE
            invariant
                i <= FLASH_SIZE,
                memory@.len() == i,
                forall|k: int| 0 <= k < i ==> memory@[k] == 0xFFu8,
            decreases FLASH_SIZE - i,
        {
            memory.push(0xFF);
            i = i + 1;
        }
        proof {
            assert(memory@ =~= Seq::new(FLASH_SIZE as nat, |k: int| 0xFFu8));
        }
        FlashChip {
            memory,
            manufacturer_id,
            device_id,
            status_register2: 0,
            write_enabled: false,
            volatile_write_enabled: false,
            deep_power_down: true,
            read_parameters: 0,
        }
    }

    /// Test fixture: force the second status register to a bit pattern,
    /// as a programming rig would before checking a round trip.
    pub fn set_status_register2(&mut self, value: u8)
        ensures
            final(self)@ == (ChipState { status_register2: value, ..old(self)@ }),
    {
        self.status_register2 = value;
    }

    /// One transaction hits the chip: `din` is the write-phase payload,
    /// the result is what the read phase clocks out. Follows `step`
    /// exactly.
    pub fn execute(&mut self, t: &Transaction, din: &[u8]) -> (out: Vec<u8>)
        requires
            step_ok(old(self)@, *t, din@),
        ensures
            final(self)@ == step(old(self)@, *t, din@).0,
            out@ == step(old(self)@, *t, din@).1,
    {
        let i = t.instruction;
        if self.deep_power_down {
            if i == instruction_byte(Command::ReleaseDeepPowerDown) {
                self.deep_power_down = false;
                Vec::new()
            } else {
                self.zero_read(t.data_length)
            }
        } else if i == instruction_byte(Command::WriteEnable) {
            self.write_enabled = true;
            Vec::new()
        } else if i == instruction_byte(Command::WriteEnableVolatile) {
            self.volatile_write_enabled = true;
            Vec::new()
        } else if i == instruction_byte(Command::WriteStatusRegister2) {
            if self.write_enabled || self.volatile_write_enabled {
                self.status_register2 = #[verifier::truncate] (t.alternate.unwrap() as u8);
                self.write_enabled = false;
                self.volatile_write_enabled = false;
            }
            Vec::new()
        } else if i == instruction_byte(Command::ReadStatusRegister1) {
            let mut out: Vec<u8> = Vec::new();
            out.push(if self.write_enabled { 2 } else { 0 });
            proof {
                assert(out@ =~= seq![old(self)@.status_register1()]);
            }
            out
        } else if i == instruction_byte(Command::ReadStatusRegister2) {
            let mut out: Vec<u8> = Vec::new();
            out.push(self.status_register2);
            proof {
                assert(out@ =~= seq![old(self)@.status_register2]);
            }
            out
        } else if i == instruction_byte(Command::ReadIds) {
            let mut out: Vec<u8> = Vec::new();
            out.push(self.manufacturer_id);
            out.push(self.device_id);
            proof {
                assert(out@ =~= seq![old(self)@.manufacturer_id, old(self)@.device_id]);
            }
            out
        } else if i == instruction_byte(Command::FastRead) {
            let a = t.address.unwrap();
            let n = t.data_length;
            let ml = self.memory.len();
            let mut out: Vec<u8> = Vec::new();
            proof {
                assert(out@ =~= self.memory@.subrange(a as int, a as int));
            }
            let mut k: u32 = 0;
            while k < n
                invariant
                    k <= n,
                    a + n <= ml,
                    ml == self.memory@.len(),
                    out@ == self.memory@.subrange(a as int, a + k),
                decreases n - k,
            {
                out.push(self.memory[a as usize + k as usize]);
                proof {
                    assert(out@ =~= self.memory@.subrange(a as int, a + k + 1));
                }
                k = k + 1;
            }
            out
        } else if i == instruction_byte(Command::PageProgram) {
            if self.write_enabled {
                let a = t.address.unwrap();
                let ml = self.memory.len();
                let ghost mem0 = self.memory@;
                let ghost c0 = self@;
                proof {
                    assert(self.memory@ =~= overwrite(mem0, a as int, din@.take(0)));
                }
                let mut k: usize = 0;
                while k < din.len()
                    invariant
                        k <= din@.len(),
                        a + din@.len() <= ml,
                        ml == mem0.len(),
                        self.memory@ == overwrite(mem0, a as int, din@.take(k as int)),
                        self.memory@.len() == mem0.len(),
                        self@ == (ChipState { mem: self.memory@, ..c0 }),
                    decreases din@.len() - k,
                {
                    self.memory.set(a as usize + k, din[k]);
                    proof {
                        assert(self.memory@ =~= overwrite(mem0, a as int, din@.take(k as int + 1)));
                    }
                    k = k + 1;
                }
                self.write_enabled = false;
                proof {
                    assert(din@.take(din@.len() as int) =~= din@);
                }
            }
            Vec::new()
        } else if i == instruction_byte(Command::Erase4KbyteBlock) {
            if self.write_enabled {
                let a = t.address.unwrap();
                let base = a / 4096 * 4096;
                proof {
                    let ai = a as int;
                    let ml = self.memory@.len() as int;
                    assert(ai / 4096 * 4096 + 4096 <= ml) by (nonlinear_arith)
                        requires
                            0 <= ai < ml,
                            ml % 4096 == 0,
                    ;
                }
                let ml = self.memory.len();
                let ghost mem0 = self.memory@;
                let ghost c0 = self@;
                proof {
                    assert(self.memory@ =~= erased(mem0, base as int, base as int));
                }
                let mut k: u32 = 0;
                while k < 4096
                    invariant
                        k <= 4096,
                        base + 4096 <= ml,
                        ml == mem0.len(),
                        self.memory@ == erased(mem0, base as int, base + k),
                        self.memory@.len() == mem0.len(),
                        self@ == (ChipState { mem: self.memory@, ..c0 }),
                    decreases 4096 - k,
                {
                    self.memory.set(base as usize + k as usize, 0xFF);
                    proof {
                        assert(self.memory@ =~= erased(mem0, base as int, base + k + 1));
                    }
                    k = k + 1;
                }
                self.write_enabled = false;
            }
            Vec::new()
        } else if i == instruction_byte(Command::ChipErase) {
            if self.write_enabled {
                let ghost mem0 = self.memory@;
                let ghost c0 = self@;
                proof {
                    assert(self.memory@ =~= erased(mem0, 0, 0));
                }
                let n = self.memory.len();
                let mut k: usize = 0;
                while k < n
                    invariant
                        k <= n,
                        n == mem0.len(),
                        self.memory@ == erased(mem0, 0, k as int),
                        self.memory@.len() == mem0.len(),
                        self@ == (ChipState { mem: self.memory@, ..c0 }),
                    decreases n - k,
                {
                    self.memory.set(k, 0xFF);
                    proof {
                        assert(self.memory@ =~= erased(mem0, 0, k + 1));
                    }
                    k = k + 1;
                }
                self.write_enabled = false;
            }
            Vec::new()
        } else if i == instruction_byte(Command::SetReadParameters) {
            self.read_parameters = #[verifier::truncate] (t.alternate.unwrap() as u8);
            Vec::new()
        } else if i == instruction_byte(Command::DeepPowerDown) {
            self.deep_power_down = true;
            Vec::new()
        } else {
            self.zero_read(t.data_length)
        }
    }

    /// The bytes a read phase clocks in while the chip stays silent.
    fn zero_read(&self, n: u32) -> (out: Vec<u8>)
        ensures
            out@ == zero_bytes(n as nat),
    {
        let mut out: Vec<u8> = Vec::new();
        let mut k: u32 = 0;
        while k < n
            invariant
                k <= n,
                out@.len() == k,
                forall|j: int| 0 <= j < k ==> out@[j] == 0u8,
            decreases n - k,
        {
            out.push(0);
            k = k + 1;
        }
        proof {
            assert(out@ =~= zero_bytes(n as nat));
        }
        out
    }
}

} // verus!
