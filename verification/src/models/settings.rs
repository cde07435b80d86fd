//! Application settings: speed-test servers, grid and display options.

use vstd::prelude::*;
use crate::services::iperf_client::IperfClient;
use crate::services::smb_tester::SmbTester;

verus! {

/// The unit in which throughput figures are shown.
#[derive(Debug, Clone, Copy, PartialEq, Eq, Structural)]
pub enum ThroughputUnit {
    Mbit,
    MByte,
}

impl Default for ThroughputUnit {
    fn default() -> (u: Self)
        ensures
            u == ThroughputUnit::Mbit,
    {
        ThroughputUnit::Mbit
    }
}

/// Bit pattern of the IEEE-754 double 1.0 (one meter).
pub const ONE_METER_BITS: u64 = 0x3FF0_0000_0000_0000;

/// User settings. Grid spacings are real numbers of meters in the
/// application and are carried here as IEEE-754 bit patterns.
#[derive(Debug, Clone)]
pub struct AppSettings {
    pub iperf_enabled: bool,
    pub iperf_server: String,
    pub iperf_port: u16,
    pub iperf_duration_secs: u32,
    pub iperf_parallel_streams: u8,
    pub smb_enabled: bool,
    pub smb_server: String,
    pub smb_share: String,
    pub smb_username: String,
    pub smb_password: String,
    pub show_grid: bool,
    /// Bit pattern of the visual grid line spacing, in meters.
    pub grid_spacing_m_bits: u64,
    /// Bit pattern of the cell size used for snapping and cell coloring.
    pub measurement_grid_spacing_m_bits: u64,
    pub snap_to_grid: bool,
    pub throughput_unit: ThroughputUnit,
}

impl Default for AppSettings {
    /// Speed tests off (iperf on port 5201 for 5 s with 4 streams once
    /// enabled), no Samba server, a visible 1 m grid with 1 m cells,
    /// snapping off, throughput in Mbit/s.
    fn default() -> (s: Self)
        ensures
            !s.iperf_enabled,
            s.iperf_server@.len() == 0,
            s.iperf_port == 5201,
            s.iperf_duration_secs == 5,
            s.iperf_parallel_streams == 4,
            !s.smb_enabled,
            s.smb_server@.len() == 0,
            s.smb_share@.len() == 0,
            s.smb_username@.len() == 0,
            s.smb_password@.len() == 0,
            s.show_grid,
            s.grid_spacing_m_bits == ONE_METER_BITS,
            s.measurement_grid_spacing_m_bits == ONE_METER_BITS,
            !s.snap_to_grid,
            s.throughput_unit == ThroughputUnit::Mbit,
    {
        AppSettings {
            iperf_enabled: false,
            iperf_server: String::new(),
            iperf_port: 5201,
            iperf_duration_secs: 5,
            iperf_parallel_streams: 4,
            smb_enabled: false,
            smb_server: String::new(),
            smb_share: String::new(),
            smb_username: String::new(),
            smb_password: String::new(),
            show_grid: true,
            grid_spacing_m_bits: ONE_METER_BITS,
            measurement_grid_spacing_m_bits: ONE_METER_BITS,
            snap_to_grid: false,
            throughput_unit: ThroughputUnit::Mbit,
        }
    }
}

/// Text shown while a measurement is being taken, naming the speed tests
/// that run with the scan.
pub open spec fn measure_status_text(iperf: bool, smb: bool) -> Seq<char> {
    if iperf && smb {
        "Scanning + iperf3 + Samba\u{2026}"@
    } else if iperf {
        "Scanning + iperf3\u{2026}"@
    } else if smb {
        "Scanning + Samba\u{2026}"@
    } else {
        "Scanning WiFi\u{2026}"@
    }
}

/// The text shown while measuring with the given speed tests.
pub fn measure_status(iperf: bool, smb: bool) -> (s: &'static str)
    ensures
        s@ == measure_status_text(iperf, smb),
{
    if iperf && smb {
        "Scanning + iperf3 + Samba\u{2026}"
    } else if iperf {
        "Scanning + iperf3\u{2026}"
    } else if smb {
        "Scanning + Samba\u{2026}"
    } else {
        "Scanning WiFi\u{2026}"
    }
}

impl AppSettings {
    /// Whether a measurement runs the iperf test: enabled, with a server.
    pub fn runs_iperf(&self) -> (b: bool)
        ensures
            b == (self.iperf_enabled && self.iperf_server@.len() > 0),
    {
        self.iperf_enabled && self.iperf_server.as_str().unicode_len() > 0
    }

    /// Whether a measurement runs the Samba test: enabled, with a server.
    pub fn runs_smb(&self) -> (b: bool)
        ensures
            b == (self.smb_enabled && self.smb_server@.len() > 0),
    {
        self.smb_enabled && self.smb_server.as_str().unicode_len() > 0
    }

    /// The iperf client these settings describe.
    pub fn iperf_client(&self) -> (c: IperfClient)
        ensures
            c.server@ == self.iperf_server@,
            c.port == self.iperf_port,
            c.duration_secs == self.iperf_duration_secs,
    {
        IperfClient::new(self.iperf_server.as_str(), self.iperf_port, self.iperf_duration_secs)
    }

    /// The Samba test these settings describe; an empty user name or
    /// password counts as none.
    pub fn smb_tester(&self) -> (t: SmbTester)
        ensures
            t.server@ == self.smb_server@,
            t.share@ == self.smb_share@,
            self.smb_username@.len() == 0 ==> t.username is None,
            self.smb_username@.len() > 0 ==> (t.username matches Some(u) && u@
                == self.smb_username@),
            self.smb_password@.len() == 0 ==> t.password is None,
            self.smb_password@.len() > 0 ==> (t.password matches Some(p) && p@
                == self.smb_password@),
    {
        let mut t = SmbTester::new(self.smb_server.as_str(), self.smb_share.as_str());
        t.username = if self.smb_username.as_str().unicode_len() == 0 {
            None
        } else {
            Some(self.smb_username.clone())
        };
        t.password = if self.smb_password.as_str().unicode_len() == 0 {
            None
        } else {
            Some(self.smb_password.clone())
        };
        t
    }
}

} // verus!
