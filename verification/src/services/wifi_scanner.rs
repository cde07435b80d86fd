//! The connected access point as the scanner reports it.

use vstd::prelude::*;

verus! {

/// The access point the machine is connected to.
#[derive(Debug, Clone)]
pub struct WifiInfo {
    pub ssid: String,
    pub bssid: String,
    pub frequency_mhz: u32,
    pub channel: u8,
    pub signal_dbm: i32,
    pub link_speed_mbps: Option<u32>,
}

} // verus!
