//! Status LED: the mapping from a red/green/blue mix to the output pin
//! levels of the LED port.
//!
//! The board wires the blue die to pin 0, the red die to pin 4 and the
//! green die to pin 5; driving the pins themselves is hardware work done
//! outside this crate with the levels computed here.

use vstd::prelude::*;

verus! {

/// Levels for the three LED pins of the port, named after the output-data
/// register bits they land in.
#[derive(Clone, Copy, Debug, PartialEq, Eq, Structural)]
pub struct LedPins {
    /// Pin 0: the blue die.
    pub odr0: bool,
    /// Pin 4: the red die.
    pub odr4: bool,
    /// Pin 5: the green die.
    pub odr5: bool,
}

/// Pin levels showing the given color mix.
pub fn set(red: bool, green: bool, blue: bool) -> (r: LedPins)
    ensures
        r.odr0 == blue,
        r.odr4 == red,
        r.odr5 == green,
{
    LedPins { odr0: blue, odr4: red, odr5: green }
}

/// Pin levels for red only.
pub fn red() -> (r: LedPins)
    ensures
        r == (LedPins { odr0: false, odr4: true, odr5: false }),
{
    set(true, false, false)
}

/// Pin levels for green only.
pub fn green() -> (r: LedPins)
    ensures
        r == (LedPins { odr0: false, odr4: false, odr5: true }),
{
    set(false, true, false)
}

/// Pin levels for blue only.
pub fn blue() -> (r: LedPins)
    ensures
        r == (LedPins { odr0: true, odr4: false, odr5: false }),
{
    set(false, false, true)
}

/// Pin levels with every die dark.
pub fn off() -> (r: LedPins)
    ensures
        r == (LedPins { odr0: false, odr4: false, odr5: false }),
{
    set(false, false, false)
}

} // verus!
