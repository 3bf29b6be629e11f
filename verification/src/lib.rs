//! Driver core for a graphing-calculator mainboard.
//!
//! The heart of the crate is the external serial NOR flash driver: a bus
//! transaction encoder for a QSPI-class peripheral, a golden model of the
//! flash chip, and a lifecycle-typed handle exposing read / program / erase
//! operations. Around it stand the pure decision layers of the other board
//! components: keypad decoding, LED pin mapping, and the LCD bus register
//! patterns. Hardware register access itself lives outside this crate.

pub mod dfu;
pub mod external_flash;
pub mod flash_chip;
pub mod fmc_lcd;
pub mod geometry;
pub mod keypad;
pub mod led;
pub mod paging;
pub mod qspi;
