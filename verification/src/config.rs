//! The configuration that the device keeps.

use vstd::prelude::*;
use crate::msc_ctrl::MscCtrl;

verus! {

/// Configuration of the device: whether it streams burst frames, and what
/// the control register of the sensor is known to hold.
#[derive(Copy, Clone, Debug, PartialEq, Eq, Hash, Structural)]
pub struct Config {
    pub burst_enabled: bool,
    pub msc_ctrl: MscCtrl,
}

impl Config {
    /// The configuration after power-up and after every restart: no
    /// streaming, and the power-up value of the control register.
    pub open spec fn initial() -> Config {
        Config { burst_enabled: false, msc_ctrl: MscCtrl::power_on() }
    }
}

impl Default for Config {
    fn default() -> (config: Self)
        ensures
            config == Config::initial(),
    {
        Config { burst_enabled: false, msc_ctrl: MscCtrl::default() }
    }
}

} // verus!
