use mainboard::dfu::{QspiDfu, TRANSFER_SIZE};
use mainboard::external_flash::ExternalFlash;
use mainboard::flash_chip::FlashChip;

fn fresh_backend() -> QspiDfu {
    let chip = FlashChip::new(0xEF, 0x17);
    QspiDfu::new(ExternalFlash::new(chip).init())
}

#[test]
fn the_transfer_buffer_starts_zeroed() {
    let backend = fresh_backend();
    assert_eq!(backend.buffer.len(), TRANSFER_SIZE as usize);
    assert!(backend.buffer.iter().all(|&b| b == 0));
}

#[test]
fn store_then_program_then_read_round_trips() {
    let mut backend = fresh_backend();
    let image: Vec<u8> = (0..128u32).map(|i| i as u8).collect();
    backend.store_write_buffer(&image).unwrap();
    backend.program(0x4000, 128).unwrap();
    let read = backend.read(0x4000, 128).unwrap();
    assert_eq!(read, image);
}

#[test]
fn a_short_store_keeps_the_buffer_tail() {
    let mut backend = fresh_backend();
    backend.store_write_buffer(&[9u8; 128]).unwrap();
    backend.store_write_buffer(&[1, 2, 3]).unwrap();
    assert_eq!(&backend.buffer[..3], &[1, 2, 3]);
    assert!(backend.buffer[3..].iter().all(|&b| b == 9));
}

#[test]
fn a_short_program_writes_only_the_prefix() {
    let mut backend = fresh_backend();
    backend.store_write_buffer(&[0x11u8; 128]).unwrap();
    backend.program(0x100, 4).unwrap();
    let read = backend.read(0x0FE, 8).unwrap();
    assert_eq!(read, vec![0xFF, 0xFF, 0x11, 0x11, 0x11, 0x11, 0xFF, 0xFF]);
}

#[test]
fn erase_clears_the_4k_block_of_the_address() {
    let mut backend = fresh_backend();
    backend.store_write_buffer(&[0x22u8; 128]).unwrap();
    backend.program(0x1000, 128).unwrap();
    backend.erase(0x1FFF).unwrap();
    let read = backend.read(0x1000, 128).unwrap();
    assert!(read.iter().all(|&b| b == 0xFF));
}

#[test]
fn erase_all_is_a_deliberate_no_op() {
    let mut backend = fresh_backend();
    backend.store_write_buffer(&[0x33u8; 128]).unwrap();
    backend.program(0, 128).unwrap();
    backend.erase_all().unwrap();
    let read = backend.read(0, 128).unwrap();
    assert!(read.iter().all(|&b| b == 0x33));
}

#[test]
fn manifestation_reports_success_and_changes_nothing() {
    let mut backend = fresh_backend();
    backend.store_write_buffer(&[0x44u8; 16]).unwrap();
    backend.program(64, 16).unwrap();
    assert!(backend.manifestation().is_ok());
    let read = backend.read(64, 16).unwrap();
    assert!(read.iter().all(|&b| b == 0x44));
}
