//! Bus transaction encoder for a QSPI-class peripheral.
//!
//! A transaction descriptor names the functional mode, the instruction byte
//! and the optional address, alternate-byte and data phases of one bus
//! transaction. The encoder packs a descriptor into the control-register bit
//! pattern the peripheral expects; the proofs show that every field can be
//! read back from its bit range, so no two fields overlap.

use vstd::prelude::*;

verus! {

/// Width of one transaction phase: how many signal lines it drives.
#[derive(Clone, Copy, Debug, PartialEq, Eq, Structural)]
pub enum QspiWidth {
    /// The phase is skipped entirely.
    Skip,
    Single,
    Dual,
    Quad,
}

/// The functional modes of the peripheral.
#[derive(Clone, Copy, Debug, PartialEq, Eq, Structural)]
pub enum QspiMode {
    IndirectWrite,
    IndirectRead,
    AutoPolling,
    MemoryMapped,
}

/// The number of bytes used to transmit an address or alternate field.
#[derive(Clone, Copy, Debug, PartialEq, Eq, Structural)]
pub enum QspiSize {
    OneByte,
    TwoBytes,
    ThreeBytes,
    FourBytes,
}

pub open spec fn spec_width_bits(w: QspiWidth) -> u32 {
    match w {
        QspiWidth::Skip => 0b00,
        QspiWidth::Single => 0b01,
        QspiWidth::Dual => 0b10,
        QspiWidth::Quad => 0b11,
    }
}

pub open spec fn spec_mode_bits(m: QspiMode) -> u32 {
    match m {
        QspiMode::IndirectWrite => 0b00,
        QspiMode::IndirectRead => 0b01,
        QspiMode::AutoPolling => 0b10,
        QspiMode::MemoryMapped => 0b11,
    }
}

pub open spec fn spec_size_bits(s: QspiSize) -> u32 {
    match s {
        QspiSize::OneByte => 0b00,
        QspiSize::TwoBytes => 0b01,
        QspiSize::ThreeBytes => 0b10,
        QspiSize::FourBytes => 0b11,
    }
}

pub fn width_bits(w: QspiWidth) -> (r: u32)
    ensures
        r == spec_width_bits(w),
{
    match w {
        QspiWidth::Skip => 0b00,
        QspiWidth::Single => 0b01,
        QspiWidth::Dual => 0b10,
        QspiWidth::Quad => 0b11,
    }
}

pub fn mode_bits(m: QspiMode) -> (r: u32)
    ensures
        r == spec_mode_bits(m),
{
    match m {
        QspiMode::IndirectWrite => 0b00,
        QspiMode::IndirectRead => 0b01,
        QspiMode::AutoPolling => 0b10,
        QspiMode::MemoryMapped => 0b11,
    }
}

pub fn size_bits(s: QspiSize) -> (r: u32)
    ensures
        r == spec_size_bits(s),
{
    match s {
        QspiSize::OneByte => 0b00,
        QspiSize::TwoBytes => 0b01,
        QspiSize::ThreeBytes => 0b10,
        QspiSize::FourBytes => 0b11,
    }
}

/// One bus transaction, described field by field.
///
/// `address` and `alternate` are carried next to the widths that enable them,
/// so a descriptor holds everything the peripheral's address, alternate-byte
/// and configuration registers need for the transaction.
#[derive(Clone, Copy, Debug)]
pub struct Transaction {
    /// Functional mode of the peripheral for this transaction.
    pub fmode: QspiMode,
    /// The instruction byte sent first.
    pub instruction: u8,
    /// Width of the instruction phase.
    pub imode: QspiWidth,
    /// Width of the address phase; `Skip` when no address is sent.
    pub admode: QspiWidth,
    /// Byte count of the address phase.
    pub adsize: QspiSize,
    /// The address itself, present exactly when the phase is driven.
    pub address: Option<u32>,
    /// Width of the alternate-byte phase; `Skip` when absent.
    pub abmode: QspiWidth,
    /// Byte count of the alternate-byte phase.
    pub absize: QspiSize,
    /// The alternate bytes, present exactly when the phase is driven.
    pub alternate: Option<u32>,
    /// Width of the data phase; `Skip` when the transaction moves no data.
    pub dmode: QspiWidth,
    /// Dummy clock cycles between the address and data phases.
    pub dummy_cycles: u8,
    /// Number of data bytes clocked in or out.
    pub data_length: u32,
    /// Send-instruction-only-once optimization for memory-mapped reads.
    pub sioo: bool,
}

impl Transaction {
    /// A descriptor is well formed when a value is given only for a phase
    /// that is driven, and the dummy-cycle count fits its five-bit register
    /// field. (A memory-mapped descriptor drives the address phase without
    /// carrying an address: the addresses come from the CPU's loads.)
    pub open spec fn wf(self) -> bool {
        &&& self.dummy_cycles < 32
        &&& self.address is Some ==> self.admode != QspiWidth::Skip
        &&& self.alternate is Some ==> self.abmode != QspiWidth::Skip
        &&& self.data_length > 0 ==> self.dmode != QspiWidth::Skip
    }

    /// The control-register bit pattern of this descriptor.
    pub open spec fn spec_ccr(self) -> u32 {
        (self.instruction as u32)
            | spec_width_bits(self.imode) << 8
            | spec_width_bits(self.admode) << 10
            | spec_size_bits(self.adsize) << 12
            | spec_width_bits(self.abmode) << 14
            | spec_size_bits(self.absize) << 16
            | (self.dummy_cycles as u32) << 18
            | spec_width_bits(self.dmode) << 24
            | spec_mode_bits(self.fmode) << 26
            | (if self.sioo { 1u32 } else { 0u32 }) << 28
    }

    /// Packs the descriptor into the configuration-register bit pattern.
    pub fn ccr_bits(&self) -> (r: u32)
        requires
            self.wf(),
        ensures
            r == self.spec_ccr(),
    {
        let i: u32 = self.instruction as u32;
        let im: u32 = width_bits(self.imode);
        let adm: u32 = width_bits(self.admode);
        let ads: u32 = size_bits(self.adsize);
        let abm: u32 = width_bits(self.abmode);
        let abs: u32 = size_bits(self.absize);
        let dc: u32 = self.dummy_cycles as u32;
        let dm: u32 = width_bits(self.dmode);
        let fm: u32 = mode_bits(self.fmode);
        let so: u32 = if self.sioo { 1 } else { 0 };
        i | im << 8 | adm << 10 | ads << 12 | abm << 14 | abs << 16 | dc << 18 | dm << 24
            | fm << 26 | so << 28
    }
}

/// Every descriptor field can be read back from its own bit range of the
/// packed control register, so the encoding loses nothing and no two
/// fields overlap.
pub proof fn lemma_ccr_fields(t: Transaction)
    requires
        t.wf(),
    ensures
        t.spec_ccr() & 0xFF == t.instruction,
        (t.spec_ccr() >> 8) & 0b11 == spec_width_bits(t.imode),
        (t.spec_ccr() >> 10) & 0b11 == spec_width_bits(t.admode),
        (t.spec_ccr() >> 12) & 0b11 == spec_size_bits(t.adsize),
        (t.spec_ccr() >> 14) & 0b11 == spec_width_bits(t.abmode),
        (t.spec_ccr() >> 16) & 0b11 == spec_size_bits(t.absize),
        (t.spec_ccr() >> 18) & 0b11111 == t.dummy_cycles,
        (t.spec_ccr() >> 24) & 0b11 == spec_width_bits(t.dmode),
        (t.spec_ccr() >> 26) & 0b11 == spec_mode_bits(t.fmode),
        (t.spec_ccr() >> 28) & 1 == (if t.sioo { 1u32 } else { 0u32 }),
{
    let i = t.instruction;
    let im = spec_width_bits(t.imode);
    let adm = spec_width_bits(t.admode);
    let ads = spec_size_bits(t.adsize);
    let abm = spec_width_bits(t.abmode);
    let abs = spec_size_bits(t.absize);
    let dc = t.dummy_cycles;
    let dm = spec_width_bits(t.dmode);
    let fm = spec_mode_bits(t.fmode);
    let so: u32 = if t.sioo { 1 } else { 0 };
    let r = t.spec_ccr();
    assert(im < 4 && adm < 4 && ads < 4 && abm < 4 && abs < 4 && dm < 4 && fm < 4);
    assert({
        let v = (i as u32) | im << 8 | adm << 10 | ads << 12 | abm << 14 | abs << 16
            | (dc as u32) << 18 | dm << 24 | fm << 26 | so << 28;
        &&& v & 0xFF == i
        &&& (v >> 8) & 0b11 == im
        &&& (v >> 10) & 0b11 == adm
        &&& (v >> 12) & 0b11 == ads
        &&& (v >> 14) & 0b11 == abm
        &&& (v >> 16) & 0b11 == abs
        &&& (v >> 18) & 0b11111 == dc
        &&& (v >> 24) & 0b11 == dm
        &&& (v >> 26) & 0b11 == fm
        &&& (v >> 28) & 1 == so
    }) by (bit_vector)
        requires
            im < 4 && adm < 4 && ads < 4 && abm < 4 && abs < 4 && dm < 4 && fm < 4 && so < 2
                && dc < 32,
    ;
}

/// The device-configuration register bit pattern of the bus: the address
/// size of the attached chip (as a power of two, less one), the chip-select
/// high time, and the clock-idle mode bit.
pub fn bus_dcr_value(fsize: u8, csht: u8, ckmode: bool) -> (r: u32)
    requires
        fsize < 32,
        csht < 8,
    ensures
        (r >> 16) & 0b11111 == fsize,
        (r >> 8) & 0b111 == csht,
        r & 1 == (if ckmode { 1u32 } else { 0u32 }),
{
    let f: u32 = fsize as u32;
    let c: u32 = csht as u32;
    let k: u32 = if ckmode { 1 } else { 0 };
    let r = f << 16 | c << 8 | k;
    proof {
        assert({
            let v = f << 16 | c << 8 | k;
            &&& (v >> 16) & 0b11111 == f
            &&& (v >> 8) & 0b111 == c
            &&& v & 1 == k
        }) by (bit_vector)
            requires
                f < 32 && c < 8 && k < 2,
        ;
    }
    r
}

/// The control-register bit pattern of the bus: clock prescaler and the
/// enable bit.
pub fn bus_cr_value(prescaler: u8, enable: bool) -> (r: u32)
    ensures
        (r >> 24) & 0xFF == prescaler,
        r & 1 == (if enable { 1u32 } else { 0u32 }),
{
    let p: u32 = prescaler as u32;
    let e: u32 = if enable { 1 } else { 0 };
    let r = p << 24 | e;
    proof {
        assert({
            let v = p << 24 | e;
            &&& (v >> 24) & 0xFF == p
            &&& v & 1 == e
        }) by (bit_vector)
            requires
                p < 256 && e < 2,
        ;
    }
    r
}

} // verus!
