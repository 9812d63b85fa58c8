//! The panel's logical I/O devices and their mapping to board pins. The
//! electrical side lives with the runtime; the mapping is plain data.

use vstd::prelude::*;

use crate::config::GpioConfig;

verus! {

/// A logical device on the panel.
#[derive(Debug, Clone, Copy, PartialEq, Eq, Structural)]
pub enum GpioPin {
    RedLed,
    GreenLed,
    Buzzer,
    Trigger,
    Echo,
}

impl GpioPin {
    /// The board pin this device is wired to under the configuration.
    pub fn into_pin_number(self, config: &GpioConfig) -> (r: u8)
        ensures
            r == match self {
                GpioPin::RedLed => config.red_led_pin,
                GpioPin::GreenLed => config.green_led_pin,
                GpioPin::Buzzer => config.buzzer_pin,
                GpioPin::Trigger => config.trigger_pin,
                GpioPin::Echo => config.echo_pin,
            },
    {
        match self {
            GpioPin::RedLed => config.red_led_pin,
            GpioPin::GreenLed => config.green_led_pin,
            GpioPin::Buzzer => config.buzzer_pin,
            GpioPin::Trigger => config.trigger_pin,
            GpioPin::Echo => config.echo_pin,
        }
    }
}

} // verus!
