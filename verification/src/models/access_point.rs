use vstd::prelude::*;

verus! {

/// Label of the radio band that a carrier frequency (MHz) falls in.
/// Everything from 5000 MHz up, the 6 GHz band included, is "5 GHz".
pub open spec fn band_label(frequency_mhz: u32) -> Seq<char> {
    if frequency_mhz >= 5000 {
        "5 GHz"@
    } else if frequency_mhz >= 2400 {
        "2.4 GHz"@
    } else {
        "Unknown"@
    }
}

/// An access point as seen by a scan.
#[derive(Debug, Clone)]
pub struct AccessPoint {
    pub ssid: String,
    pub bssid: String,
    pub frequency_mhz: u32,
    pub channel: u8,
    pub signal_dbm: i32,
}

impl AccessPoint {
    /// The band this access point transmits in.
    pub fn band(&self) -> (r: &'static str)
        ensures
            r@ == band_label(self.frequency_mhz),
    {
        if self.frequency_mhz >= 5000 {
            "5 GHz"
        } else if self.frequency_mhz >= 2400 {
            "2.4 GHz"
        } else {
            "Unknown"
        }
    }
}

} // verus!
