use mainboard::led::{blue, green, off, red, LedPins};

#[test]
fn the_pins_are_wired_blue_red_green() {
    let pins = mainboard::led::set(true, false, false);
    assert_eq!(
        pins,
        LedPins {
            odr0: false,
            odr4: true,
            odr5: false
        }
    );
    let pins = mainboard::led::set(false, true, true);
    assert_eq!(
        pins,
        LedPins {
            odr0: true,
            odr4: false,
            odr5: true
        }
    );
}

#[test]
fn each_color_lights_exactly_its_die() {
    assert_eq!(red(), mainboard::led::set(true, false, false));
    assert_eq!(green(), mainboard::led::set(false, true, false));
    assert_eq!(blue(), mainboard::led::set(false, false, true));
    assert_eq!(off(), mainboard::led::set(false, false, false));
}
