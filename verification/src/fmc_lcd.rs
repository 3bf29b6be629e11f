//! Register bit patterns for the LCD controller bus: a flexible memory
//! controller driven as a 16-bit asynchronous NOR-flash-style interface.
//!
//! The values computed here are what the bring-up code writes into the
//! chip-select control registers and the read/write timing registers;
//! the proofs show each named field lands in its documented bit range.

use vstd::prelude::*;

verus! {

/// Access mode of a timing register, selecting the waveform family.
#[derive(Clone, Copy, Debug, PartialEq, Eq, Structural)]
pub enum AccessMode {
    ModeA,
    ModeB,
    ModeC,
    ModeD,
}

pub open spec fn spec_access_mode_bits(m: AccessMode) -> u32 {
    match m {
        AccessMode::ModeA => 0b00,
        AccessMode::ModeB => 0b01,
        AccessMode::ModeC => 0b10,
        AccessMode::ModeD => 0b11,
    }
}

/// Executable form of [`spec_access_mode_bits`].
pub fn access_mode_bits(m: AccessMode) -> (r: u32)
    ensures
        r == spec_access_mode_bits(m),
{
    match m {
        AccessMode::ModeA => 0b00,
        AccessMode::ModeB => 0b01,
        AccessMode::ModeC => 0b10,
        AccessMode::ModeD => 0b11,
    }
}

/// Cycle counts of one bus access, in units of the controller clock.
#[derive(Clone, Copy, Debug, PartialEq, Eq, Structural)]
pub struct Timing {
    /// Waveform family for the access.
    pub access_mode: AccessMode,
    /// Bus turnaround time, 0 to 15 cycles.
    pub bus_turnaround: u8,
    /// Data phase duration.
    pub data: u8,
    /// Address hold time, 0 to 15 cycles.
    pub address_hold: u8,
    /// Address setup time, 0 to 15 cycles.
    pub address_setup: u8,
}

impl Timing {
    /// The four-bit fields hold four-bit values.
    pub open spec fn wf(self) -> bool {
        &&& self.bus_turnaround < 16
        &&& self.address_hold < 16
        &&& self.address_setup < 16
    }
}

/// The chip-select control-register pattern for LCD use, shared by every
/// sub-bank: extended mode on (separate read and write timings), writes
/// allowed, NOR-flash operations on a 16-bit non-multiplexed bus, wait
/// signals ignored, bursts off, and the bank enabled.
pub fn configure_bcr() -> (r: u32)
    ensures
        r == 0x5059,
        r & 1 == 1,  // bank enabled
        (r >> 1) & 1 == 0,  // address and data not multiplexed
        (r >> 2) & 0b11 == 0b10,  // NOR flash mode
        (r >> 4) & 0b11 == 0b01,  // 16-bit bus width
        (r >> 6) & 1 == 1,  // NOR flash operations enabled
        (r >> 8) & 1 == 0,  // burst reads disabled
        (r >> 9) & 1 == 0,  // wait polarity active low
        (r >> 11) & 1 == 0,  // wait timing before wait state
        (r >> 12) & 1 == 1,  // write operations allowed
        (r >> 13) & 1 == 0,  // wait signal ignored (synchronous)
        (r >> 14) & 1 == 1,  // extended mode enabled
        (r >> 15) & 1 == 0,  // wait signal ignored (asynchronous)
        (r >> 16) & 0b111 == 0,  // no burst split
        (r >> 19) & 1 == 0,  // synchronous writes disabled
{
    let r: u32 = 1 | 0b10 << 2 | 0b01 << 4 | 1 << 6 | 1 << 12 | 1 << 14;
    proof {
        assert({
            let v = 1u32 | 0b10u32 << 2 | 0b01u32 << 4 | 1u32 << 6 | 1u32 << 12 | 1u32 << 14;
            &&& v & 1 == 1
            &&& (v >> 1) & 1 == 0
            &&& (v >> 2) & 0b11 == 0b10
            &&& (v >> 4) & 0b11 == 0b01
            &&& (v >> 6) & 1 == 1
            &&& (v >> 8) & 1 == 0
            &&& (v >> 9) & 1 == 0
            &&& (v >> 11) & 1 == 0
            &&& (v >> 12) & 1 == 1
            &&& (v >> 13) & 1 == 0
            &&& (v >> 14) & 1 == 1
            &&& (v >> 15) & 1 == 0
            &&& (v >> 16) & 0b111 == 0
            &&& (v >> 19) & 1 == 0
            &&& v == 0x5059
        }) by (bit_vector);
    }
    r
}

/// The control-register pattern for the first sub-bank. It is the shared
/// pattern of `configure_bcr`; the fields only the first register carries
/// (the write FIFO and its disable bit) are left at their hardware
/// defaults.
pub fn configure_bcr1() -> (r: u32)
    ensures
        r == 0x5059,
        r & 1 == 1,
        (r >> 2) & 0b11 == 0b10,
        (r >> 4) & 0b11 == 0b01,
        (r >> 6) & 1 == 1,
        (r >> 12) & 1 == 1,
        (r >> 14) & 1 == 1,
        (r >> 19) & 1 == 0,
        (r >> 20) & 1 == 0,  // continuous clock disabled
{
    let r = configure_bcr();
    proof {
        let v = r;
        assert((v >> 19) & 1 == 0 && (v >> 20) & 1 == 0) by (bit_vector)
            requires
                v == 0x5059u32,
        ;
    }
    r
}

/// A read or write timing-register pattern: access mode in bits 29..28,
/// bus turnaround in bits 19..16, data phase in bits 15..8, address hold
/// in bits 7..4 and address setup in bits 3..0.
pub fn configure_timing(t: &Timing) -> (r: u32)
    requires
        t.wf(),
    ensures
        r & 0xF == t.address_setup,
        (r >> 4) & 0xF == t.address_hold,
        (r >> 8) & 0xFF == t.data,
        (r >> 16) & 0xF == t.bus_turnaround,
        (r >> 28) & 0b11 == spec_access_mode_bits(t.access_mode),
{
    let am: u32 = access_mode_bits(t.access_mode);
    let bt: u32 = t.bus_turnaround as u32;
    let d: u32 = t.data as u32;
    let ah: u32 = t.address_hold as u32;
    let asu: u32 = t.address_setup as u32;
    let r = asu | ah << 4 | d << 8 | bt << 16 | am << 28;
    proof {
        assert({
            let v = asu | ah << 4 | d << 8 | bt << 16 | am << 28;
            &&& v & 0xF == asu
            &&& (v >> 4) & 0xF == ah
            &&& (v >> 8) & 0xFF == d
            &&& (v >> 16) & 0xF == bt
            &&& (v >> 28) & 0b11 == am
        }) by (bit_vector)
            requires
                asu < 16 && ah < 16 && d < 256 && bt < 16 && am < 4,
        ;
    }
    r
}

/// The read timing-register pattern for a timing choice.
pub fn configure_btr(read_timing: &Timing) -> (r: u32)
    requires
        read_timing.wf(),
    ensures
        r & 0xF == read_timing.address_setup,
        (r >> 4) & 0xF == read_timing.address_hold,
        (r >> 8) & 0xFF == read_timing.data,
        (r >> 16) & 0xF == read_timing.bus_turnaround,
        (r >> 28) & 0b11 == spec_access_mode_bits(read_timing.access_mode),
{
    configure_timing(read_timing)
}

/// The write timing-register pattern for a timing choice.
pub fn configure_bwtr(write_timing: &Timing) -> (r: u32)
    requires
        write_timing.wf(),
    ensures
        r & 0xF == write_timing.address_setup,
        (r >> 4) & 0xF == write_timing.address_hold,
        (r >> 8) & 0xFF == write_timing.data,
        (r >> 16) & 0xF == write_timing.bus_turnaround,
        (r >> 28) & 0b11 == spec_access_mode_bits(write_timing.access_mode),
{
    configure_timing(write_timing)
}

} // verus!
