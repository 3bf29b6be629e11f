use mainboard::fmc_lcd::{
    configure_bcr, configure_bcr1, configure_btr, configure_bwtr, AccessMode, Timing,
};

#[test]
fn the_control_register_pattern_is_the_lcd_profile() {
    // Bank enabled, NOR-flash mode, 16-bit width, flash operations
    // enabled, writes allowed, extended mode: bits 0, 3, 4, 6, 12, 14.
    assert_eq!(configure_bcr(), 0x5059);
    assert_eq!(configure_bcr1(), 0x5059);
}

#[test]
fn timing_registers_pack_field_by_field() {
    let timing = Timing {
        access_mode: AccessMode::ModeA,
        bus_turnaround: 0,
        data: 2,
        address_hold: 0,
        address_setup: 1,
    };
    assert_eq!(configure_btr(&timing), 0x0000_0201);
    assert_eq!(configure_bwtr(&timing), 0x0000_0201);

    let slow = Timing {
        access_mode: AccessMode::ModeD,
        bus_turnaround: 15,
        data: 255,
        address_hold: 14,
        address_setup: 13,
    };
    assert_eq!(configure_btr(&slow), 0x300F_FFED);
}
