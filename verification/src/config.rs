//! The pin assignment the panel's I/O layer is configured with.

use vstd::prelude::*;

verus! {

/// Which board pin each panel device sits on.
#[derive(Debug, Clone, Copy, PartialEq, Eq, Structural)]
pub struct GpioConfig {
    pub red_led_pin: u8,
    pub green_led_pin: u8,
    pub buzzer_pin: u8,
    pub trigger_pin: u8,
    pub echo_pin: u8,
}

impl Default for GpioConfig {
    /// The board's stock wiring.
    fn default() -> (r: GpioConfig)
        ensures
            r == (GpioConfig {
                red_led_pin: 17,
                green_led_pin: 27,
                buzzer_pin: 18,
                trigger_pin: 24,
                echo_pin: 23,
            }),
    {
        GpioConfig {
            red_led_pin: 17,
            green_led_pin: 27,
            buzzer_pin: 18,
            trigger_pin: 24,
            echo_pin: 23,
        }
    }
}

} // verus!
