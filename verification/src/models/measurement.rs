//! A WiFi measurement taken at one point of a floor plan.
//!
//! Positions and throughputs are real numbers in the application; the
//! library carries each of them unchanged as the 64-bit IEEE-754 bit
//! pattern of the double (the application converts with `to_bits` and
//! `from_bits`). No logic here reads them.

use vstd::prelude::*;
use std::time::{Duration, SystemTime, SystemTimeError, UNIX_EPOCH};
use crate::text::{hex_text, hex_string};
use crate::services::wifi_scanner::WifiInfo;

verus! {

/// A single WiFi measurement at a position on the floor plan.
/// The position is relative to the floor plan image: 0 is the left/top
/// edge and 1 the right/bottom edge.
#[derive(Debug, Clone)]
pub struct Measurement {
    pub id: String,
    /// Bit pattern of the relative x coordinate.
    pub x_bits: u64,
    /// Bit pattern of the relative y coordinate.
    pub y_bits: u64,
    /// Whole seconds of the UTC time of the measurement since 1970-01-01.
    pub timestamp_secs: i64,
    /// Nanoseconds past `timestamp_secs`.
    pub timestamp_subsec_nanos: u32,
    pub ssid: String,
    pub bssid: String,
    pub frequency_mhz: u32,
    pub channel: u8,
    pub signal_dbm: i32,
    pub noise_dbm: Option<i32>,
    pub link_speed_mbps: Option<u32>,
    /// Bit pattern of the iperf throughput in Mbit/s, when one was measured.
    pub iperf_mbps_bits: Option<u64>,
    /// Bit pattern of the Samba throughput in Mbit/s, when one was measured.
    pub smb_mbps_bits: Option<u64>,
}

/// `signal_dbm` clamped to the range -90 ..= -30.
pub open spec fn clamped_dbm(signal_dbm: int) -> int {
    if signal_dbm < -90 {
        -90
    } else if signal_dbm > -30 {
        -30
    } else {
        signal_dbm
    }
}

/// Signal quality in percent: -90 dBm (no signal) is 0, -30 dBm
/// (excellent) is 100, linear in between, rounded down.
pub open spec fn quality_percent(signal_dbm: int) -> int {
    (clamped_dbm(signal_dbm) + 90) * 100 / 60
}

/// Word for the quality of a signal level.
pub open spec fn quality_word(dbm: int) -> Seq<char> {
    if -50 <= dbm <= 0 {
        "Excellent"@
    } else if -60 <= dbm <= -51 {
        "Good"@
    } else if -70 <= dbm <= -61 {
        "Fair"@
    } else if -80 <= dbm <= -71 {
        "Poor"@
    } else {
        "No signal"@
    }
}

/// The identifier made from the sub-second nanoseconds `t` of the clock:
/// five hyphen-separated hexadecimal groups in the layout of a version-4
/// UUID, `t` as 8 digits, bits 16..32 of `t` as 4, `4` followed by bits
/// 4..16 as 3, `0x8000` or-ed with bits 2..16 as 4, and `t * 2^24` as at
/// least 12 digits.
pub open spec fn uuid_text(t: nat) -> Seq<char> {
    hex_text(t, 8) + seq!['-'] + hex_text((t / 65536) % 65536, 4) + seq!['-', '4']
        + hex_text((t / 16) % 4096, 3) + seq!['-'] + hex_text(32768 + (t / 4) % 16384, 4)
        + seq!['-'] + hex_text(t * 16777216, 12)
}

/// Whether `id` is an identifier that `uuid_v4` can produce.
pub open spec fn is_clock_uuid(id: Seq<char>) -> bool {
    exists|t: nat| t < 1_000_000_000 && id == #[trigger] uuid_text(t)
}

#[verifier::external_type_specification]
#[verifier::external_body]
pub struct ExSystemTime(std::time::SystemTime);

#[verifier::external_type_specification]
#[verifier::external_body]
pub struct ExSystemTimeError(std::time::SystemTimeError);

/// `SystemTime::now()`: the current reading of the system clock. Nothing
/// is claimed of which instant it is.
#[verifier::external_body]
fn system_now() -> (t: SystemTime) {
    SystemTime::now()
}

/// `SystemTime::duration_since(UNIX_EPOCH)`: the time elapsed since the
/// Unix epoch, or an error when `t` lies before it. Which of the two comes
/// back depends on the clock and is not claimed.
#[verifier::external_body]
fn since_epoch(t: &SystemTime) -> (r: Result<Duration, SystemTimeError>) {
    t.duration_since(UNIX_EPOCH)
}

/// `SystemTimeError::duration`: how far the reading lay before the epoch.
#[verifier::external_body]
fn before_epoch(e: &SystemTimeError) -> (d: Duration) {
    e.duration()
}

/// `Duration::as_secs`: the whole seconds of a duration.
#[verifier::external_body]
fn whole_secs(d: &Duration) -> (s: u64) {
    d.as_secs()
}

/// `Duration::subsec_nanos`: the fractional part of a duration in
/// nanoseconds, which std documents as always below one billion.
#[verifier::external_body]
fn subsec_nanos(d: &Duration) -> (n: u32)
    ensures
        n < 1_000_000_000,
{
    d.subsec_nanos()
}

/// The sub-second nanoseconds of the clock since the epoch, zero when the
/// clock reads before the epoch (as `unwrap_or_default` gives).
fn clock_subsec_nanos() -> (t: u32)
    ensures
        t < 1_000_000_000,
{
    let now = system_now();
    match since_epoch(&now) {
        Ok(d) => subsec_nanos(&d),
        Err(_) => 0,
    }
}

/// The UTC timestamp, as whole seconds since 1970-01-01 and nanoseconds
/// past them, of a clock reading `secs` seconds and `nanos` nanoseconds
/// after the epoch (`after_epoch`) or before it. An instant beyond the
/// range of `i64` seconds is held at the nearest end of that range.
pub open spec fn clock_timestamp(after_epoch: bool, secs: int, nanos: int) -> (int, int) {
    let (ts, tn) = if after_epoch {
        (secs, nanos)
    } else if nanos == 0 {
        (-secs, 0int)
    } else {
        (-secs - 1, 1_000_000_000 - nanos)
    };
    if ts > i64::MAX {
        (i64::MAX as int, 999_999_999int)
    } else if ts < i64::MIN {
        (i64::MIN as int, 0int)
    } else {
        (ts, tn)
    }
}

/// Whether `(secs, nanos)` is the timestamp of some clock reading.
pub open spec fn is_clock_timestamp(secs: i64, nanos: u32) -> bool {
    exists|after_epoch: bool, s: u64, n: u32|
        n < 1_000_000_000 && #[trigger] clock_timestamp(after_epoch, s as int, n as int) == (
        secs as int,
        nanos as int,
    )
}

/// The timestamp of a clock reading of `secs` seconds and `nanos`
/// nanoseconds after the epoch, or before it when `after_epoch` is false
/// (see `clock_timestamp`).
pub fn timestamp_of_reading(after_epoch: bool, secs: u64, nanos: u32) -> (r: (i64, u32))
    requires
        nanos < 1_000_000_000,
    ensures
        (r.0 as int, r.1 as int) == clock_timestamp(after_epoch, secs as int, nanos as int),
        r.1 < 1_000_000_000,
{
    if after_epoch {
        if secs > i64::MAX as u64 {
            (i64::MAX, 999_999_999)
        } else {
            (secs as i64, nanos)
        }
    } else if nanos == 0 {
        if secs >= 9_223_372_036_854_775_808u64 {
            (i64::MIN, 0)
        } else {
            (-(secs as i64), 0)
        }
    } else {
        if secs >= 9_223_372_036_854_775_808u64 {
            (i64::MIN, 0)
        } else {
            (-(secs as i64) - 1, 1_000_000_000 - nanos)
        }
    }
}

/// The current UTC time as a timestamp (see `timestamp_of_reading`).
fn clock_timestamp_now() -> (r: (i64, u32))
    ensures
        is_clock_timestamp(r.0, r.1),
        r.1 < 1_000_000_000,
{
    let now = system_now();
    let (after_epoch, d) = match since_epoch(&now) {
        Ok(d) => (true, d),
        Err(e) => (false, before_epoch(&e)),
    };
    let secs = whole_secs(&d);
    let nanos = subsec_nanos(&d);
    let r = timestamp_of_reading(after_epoch, secs, nanos);
    assert(clock_timestamp(after_epoch, secs as int, nanos as int) == (r.0 as int, r.1 as int));
    r
}

/// The identifier for the clock reading `t` (see `uuid_text`).
pub fn uuid_from_nanos(t: u32) -> (id: String)
    ensures
        id@ == uuid_text(t as nat),
{
    let n = t as u128;
    let mut id = hex_string(n, 8);
    id.append("-");
    id.append(hex_string((n / 65536) % 65536, 4).as_str());
    id.append("-4");
    id.append(hex_string((n / 16) % 4096, 3).as_str());
    id.append("-");
    id.append(hex_string(32768 + (n / 4) % 16384, 4).as_str());
    id.append("-");
    id.append(hex_string(n * 16777216, 12).as_str());
    proof {
        reveal_strlit("-");
        reveal_strlit("-4");
    }
    id
}

/// A fresh identifier for a measurement, made from the clock.
pub fn uuid_v4() -> (id: String)
    ensures
        is_clock_uuid(id@),
{
    let t = clock_subsec_nanos();
    let id = uuid_from_nanos(t);
    assert(id@ == uuid_text(t as nat));
    id
}

/// Quality word shown next to a signal level in the measurement list.
pub fn signal_quality_str(dbm: i32) -> (r: &'static str)
    ensures
        r@ == quality_word(dbm as int),
{
    if -50 <= dbm && dbm <= 0 {
        "Excellent"
    } else if -60 <= dbm && dbm <= -51 {
        "Good"
    } else if -70 <= dbm && dbm <= -61 {
        "Fair"
    } else if -80 <= dbm && dbm <= -71 {
        "Poor"
    } else {
        "No signal"
    }
}

impl Measurement {
    /// A measurement taken now at the given position, with a fresh
    /// identifier and no noise, link speed or throughput figures.
    pub fn new(
        x_bits: u64,
        y_bits: u64,
        ssid: String,
        bssid: String,
        frequency_mhz: u32,
        channel: u8,
        signal_dbm: i32,
    ) -> (m: Self)
        ensures
            is_clock_uuid(m.id@),
            m.x_bits == x_bits,
            m.y_bits == y_bits,
            is_clock_timestamp(m.timestamp_secs, m.timestamp_subsec_nanos),
            m.timestamp_subsec_nanos < 1_000_000_000,
            m.ssid == ssid,
            m.bssid == bssid,
            m.frequency_mhz == frequency_mhz,
            m.channel == channel,
            m.signal_dbm == signal_dbm,
            m.noise_dbm is None,
            m.link_speed_mbps is None,
            m.iperf_mbps_bits is None,
            m.smb_mbps_bits is None,
    {
        let id = uuid_v4();
        let (timestamp_secs, timestamp_subsec_nanos) = clock_timestamp_now();
        Measurement {
            id,
            x_bits,
            y_bits,
            timestamp_secs,
            timestamp_subsec_nanos,
            ssid,
            bssid,
            frequency_mhz,
            channel,
            signal_dbm,
            noise_dbm: None,
            link_speed_mbps: None,
            iperf_mbps_bits: None,
            smb_mbps_bits: None,
        }
    }

    /// Signal quality in percent (0 to 100).
    pub fn signal_quality_percent(&self) -> (q: u8)
        ensures
            q as int == quality_percent(self.signal_dbm as int),
            q <= 100,
    {
        let clamped: i32 = if self.signal_dbm < -90 {
            -90
        } else if self.signal_dbm > -30 {
            -30
        } else {
            self.signal_dbm
        };
        ((clamped + 90) * 100 / 60) as u8
    }
}

/// Law: the quality is 0 % at -90 dBm and below and 100 % at -30 dBm and
/// above; in between it is the whole part of how far, in percent, the
/// level lies along the way from -90 to -30 dBm: `q` % for a level `d`
/// with `60 q <= 100 (d + 90) < 60 (q + 1)`. So 100 % is reached only at
/// -30 dBm and above.
pub proof fn lemma_quality_scale(d: int)
    ensures
        d <= -90 ==> quality_percent(d) == 0,
        d >= -30 ==> quality_percent(d) == 100,
        -90 <= d <= -30 ==> 60 * quality_percent(d) <= 100 * (d + 90) < 60 * (quality_percent(d)
            + 1),
        quality_percent(d) == 100 <==> d >= -30,
{
    let c = clamped_dbm(d);
    vstd::arithmetic::div_mod::lemma_fundamental_div_mod((c + 90) * 100, 60);
    if d <= -90 {
        assert(c == -90);
    }
    if d >= -30 {
        assert(c == -30);
    }
}

/// Law: the quality percentage never decreases as the signal gets
/// stronger.
pub proof fn lemma_quality_monotone(a: int, b: int)
    requires
        a <= b,
    ensures
        quality_percent(a) <= quality_percent(b),
        0 <= quality_percent(a) <= 100,
{
    let x = (clamped_dbm(a) + 90) * 100;
    let y = (clamped_dbm(b) + 90) * 100;
    assert(x <= y) by (nonlinear_arith)
        requires
            clamped_dbm(a) <= clamped_dbm(b),
            x == (clamped_dbm(a) + 90) * 100,
            y == (clamped_dbm(b) + 90) * 100,
    ;
    vstd::arithmetic::div_mod::lemma_div_is_ordered(x, y, 60);
}

impl Measurement {
    /// The measurement recorded at a position from a scan result and the
    /// speed-test figures (bit patterns) that came with it; the link speed
    /// is not recorded.
    pub fn from_scan(
        x_bits: u64,
        y_bits: u64,
        info: &WifiInfo,
        iperf_mbps_bits: Option<u64>,
        smb_mbps_bits: Option<u64>,
    ) -> (m: Self)
        ensures
            is_clock_uuid(m.id@),
            m.x_bits == x_bits,
            m.y_bits == y_bits,
            is_clock_timestamp(m.timestamp_secs, m.timestamp_subsec_nanos),
            m.timestamp_subsec_nanos < 1_000_000_000,
            m.ssid@ == info.ssid@,
            m.bssid@ == info.bssid@,
            m.frequency_mhz == info.frequency_mhz,
            m.channel == info.channel,
            m.signal_dbm == info.signal_dbm,
            m.noise_dbm is None,
            m.link_speed_mbps is None,
            m.iperf_mbps_bits == iperf_mbps_bits,
            m.smb_mbps_bits == smb_mbps_bits,
    {
        let mut m = Measurement::new(
            x_bits,
            y_bits,
            info.ssid.clone(),
            info.bssid.clone(),
            info.frequency_mhz,
            info.channel,
            info.signal_dbm,
        );
        m.iperf_mbps_bits = iperf_mbps_bits;
        m.smb_mbps_bits = smb_mbps_bits;
        m
    }
}

} // verus!
