//! Build-time settings of the firmware image.

use vstd::prelude::*;

verus! {

/// Wireless credentials compiled into the image.
#[derive(Clone, Copy, Debug)]
pub struct Config {
    pub wifi_ssid: &'static str,
    pub wifi_psk: &'static str,
}

impl Config {
    /// The network name used when the build names none.
    pub open spec fn default_ssid() -> Seq<char> {
        "Wokwi-GUEST"@
    }

    /// The passphrase used when the build names none: the empty one.
    pub open spec fn default_psk() -> Seq<char> {
        ""@
    }
}

impl Default for Config {
    /// The settings of a build that overrides nothing.
    fn default() -> (config: Config)
        ensures
            config.wifi_ssid@ == Config::default_ssid(),
            config.wifi_psk@ == Config::default_psk(),
    {
        Config { wifi_ssid: "Wokwi-GUEST", wifi_psk: "" }
    }
}

} // verus!
