use mainboard::external_flash::{
    bus_configuration, fast_read_tx, read_ids_tx, ExternalFlash, Indirect, FLASH_END, FLASH_START,
};
use mainboard::flash_chip::FlashChip;
use mainboard::geometry::FLASH_SIZE;

fn fresh_indirect(manufacturer: u8, device: u8) -> ExternalFlash<Indirect> {
    let chip = FlashChip::new(manufacturer, device);
    ExternalFlash::new(chip).init()
}

#[test]
fn read_ids_returns_the_programmed_pair() {
    let mut flash = fresh_indirect(0xEF, 0x17);
    assert_eq!(flash.read_ids(), (0xEF, 0x17));
    // Reading the IDs changes nothing; a second read agrees.
    assert_eq!(flash.read_ids(), (0xEF, 0x17));
}

#[test]
fn init_sets_the_quad_enable_bit() {
    let mut flash = fresh_indirect(0xEF, 0x17);
    assert_eq!(flash.read_status_register2(), 0x02);
}

#[test]
fn status_register2_round_trips_any_pattern() {
    let mut flash = fresh_indirect(0xEF, 0x17);
    for pattern in [0x00u8, 0xFF, 0x5A, 0xA5, 0x01] {
        flash.chip.set_status_register2(pattern);
        assert_eq!(flash.read_status_register2(), pattern);
    }
}

#[test]
fn write_enable_sets_the_latch_bit() {
    let mut flash = fresh_indirect(0xEF, 0x17);
    assert_eq!(flash.read_status_register1(), 0x00);
    flash.write_enable();
    assert_eq!(flash.read_status_register1(), 0x02);
}

#[test]
fn write_disable_issues_the_enable_instruction() {
    // Both operations send the same instruction byte; the latch ends set
    // either way, and the chip clears it after the next program or erase.
    let mut flash = fresh_indirect(0xEF, 0x17);
    flash.write_disable();
    assert_eq!(flash.read_status_register1(), 0x02);
}

#[test]
fn program_then_read_returns_the_programmed_bytes() {
    let mut flash = fresh_indirect(0xEF, 0x17);
    let data: Vec<u8> = (0..300u32).map(|i| (i % 251) as u8).collect();
    flash.program_page(0x1C8, &data);
    let mut buffer = vec![0u8; 300];
    flash.read_bytes(0x1C8, &mut buffer);
    assert_eq!(buffer, data);
}

#[test]
fn program_page_splits_at_the_page_boundary() {
    // 300 bytes at 0x1C8: the first chunk runs to the page end at 0x200,
    // the second carries the rest. The page-local latch handshake means
    // the latch is clear afterwards.
    let mut flash = fresh_indirect(0xEF, 0x17);
    let data = vec![0x00u8; 300];
    flash.program_page(0x1C8, &data);
    assert_eq!(flash.read_status_register1(), 0x00);
    let mut buffer = vec![0xAAu8; 302];
    flash.read_bytes(0x1C7, &mut buffer);
    assert_eq!(buffer[0], 0xFF); // untouched byte before the range
    assert!(buffer[1..301].iter().all(|&b| b == 0x00));
    assert_eq!(buffer[301], 0xFF); // untouched byte after the range
}

#[test]
fn program_leaves_neighbours_alone() {
    let mut flash = fresh_indirect(0xEF, 0x17);
    flash.program_page(16, &[1, 2, 3, 4]);
    let mut buffer = vec![0u8; 8];
    flash.read_bytes(14, &mut buffer);
    assert_eq!(buffer, vec![0xFF, 0xFF, 1, 2, 3, 4, 0xFF, 0xFF]);
}

#[test]
fn block_erase_4k_erases_exactly_its_block() {
    let mut flash = fresh_indirect(0xEF, 0x17);
    // 32 bytes straddling the boundary between block 0 and block 1.
    let data = vec![0x42u8; 32];
    flash.program_page(0x0FF0, &data);
    flash.block_erase_4k(0x1234);
    let mut buffer = vec![0u8; 32];
    flash.read_bytes(0x0FF0, &mut buffer);
    // The 16 bytes below 0x1000 survive; the 16 above are erased again.
    assert!(buffer[..16].iter().all(|&b| b == 0x42));
    assert!(buffer[16..].iter().all(|&b| b == 0xFF));
}

#[test]
fn chip_erase_resets_everything() {
    let mut flash = fresh_indirect(0xEF, 0x17);
    flash.program_page(0, &[0u8; 64]);
    flash.program_page(FLASH_SIZE - 64, &[0u8; 64]);
    flash.chip_erase();
    let mut buffer = vec![0u8; 64];
    flash.read_bytes(0, &mut buffer);
    assert!(buffer.iter().all(|&b| b == 0xFF));
    flash.read_bytes(FLASH_SIZE - 64, &mut buffer);
    assert!(buffer.iter().all(|&b| b == 0xFF));
}

#[test]
fn memory_mapped_reads_see_the_programmed_bytes() {
    let mut flash = fresh_indirect(0xEF, 0x17);
    flash.program_page(0x2000, &[7, 8, 9]);
    let mapped = flash.into_memory_mapped();
    assert_eq!(mapped.read_mapped(0x2000), 7);
    assert_eq!(mapped.read_mapped(0x2001), 8);
    assert_eq!(mapped.read_mapped(0x2002), 9);
    assert_eq!(mapped.read_mapped(0x2003), 0xFF);
}

#[test]
fn identification_read_encodes_to_the_documented_pattern() {
    // instruction 0x90, single-wide instruction, quad three-byte address,
    // quad data, indirect-read mode.
    let t = read_ids_tx();
    assert_eq!(t.ccr_bits(), 0x0700_2D90);
    assert_eq!(t.address, Some(0));
    assert_eq!(t.data_length, 2);
}

#[test]
fn fast_read_encodes_six_dummy_cycles() {
    let t = fast_read_tx(0x1234, 16);
    // 0x0B | imode single | admode quad | adsize 3 bytes | dcyc 6
    // | dmode quad | fmode indirect-read.
    assert_eq!(t.ccr_bits(), 0x0718_2D0B);
    assert_eq!(t.address, Some(0x1234));
    assert_eq!(t.data_length, 16);
}

#[test]
fn bus_configuration_matches_the_chip() {
    let (dcr, cr) = bus_configuration();
    // 2^23 bytes encoded less one, chip-select high two cycles, clock
    // idles high; prescaler three, bus enabled.
    assert_eq!(dcr, 22 << 16 | 2 << 8 | 1);
    assert_eq!(cr, 3 << 24 | 1);
}

#[test]
fn the_mapped_window_spans_the_chip() {
    assert_eq!(FLASH_END - FLASH_START, FLASH_SIZE);
    assert_eq!(FLASH_START, 0x9000_0000);
}

#[test]
fn an_empty_program_changes_nothing() {
    let mut flash = fresh_indirect(0xEF, 0x17);
    flash.program_page(0x100, &[]);
    let mut buffer = vec![0u8; 4];
    flash.read_bytes(0x100, &mut buffer);
    assert_eq!(buffer, vec![0xFF; 4]);
}

#[test]
fn set_read_parameters_writes_the_parameter_byte() {
    let mut flash = fresh_indirect(0xEF, 0x17);
    flash.set_read_parameters();
    // Six dummy clocks, eight-byte wrap.
    assert_eq!(flash.chip.read_parameters, 0b0010_0000);
}
