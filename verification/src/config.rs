use vstd::prelude::*;

verus! {

/// Station credentials and the channel on which peer-to-peer frames are
/// exchanged. The firmware's build-time configuration table supplies one
/// value of this type; `Default` gives the same fallback values that the
/// table uses when an entry is missing.
pub struct Config {
    pub wifi_ssid: &'static str,
    pub wifi_pass: &'static str,
    pub espnow_channel: u8,
}

impl Default for Config {
    /// An empty SSID and password, and channel 1.
    fn default() -> (c: Config)
        ensures
            c.wifi_ssid@.len() == 0,
            c.wifi_pass@.len() == 0,
            c.espnow_channel == 1,
    {
        proof {
            reveal_strlit("");
        }
        Config { wifi_ssid: "", wifi_pass: "", espnow_channel: 1 }
    }
}

} // verus!
