//! Reading the active access point from NetworkManager.
//!
//! The application talks D-Bus; this module decides what it asks next
//! (`ApQuery`) and turns the access point's properties into a `WifiInfo`.

use vstd::prelude::*;
use vstd::utf8::{decode_utf8, valid_utf8};
use crate::services::wifi_scanner::WifiInfo;

verus! {

/// NetworkManager's device type of 802.11 wireless devices.
pub const DEVICE_TYPE_WIFI: u32 = 2;

/// The 802.11 channel of a carrier frequency in MHz; 0 when the frequency
/// is no channel centre of the 2.4, 5 or 6 GHz bands.
pub open spec fn channel_of(freq_mhz: u32) -> int {
    if 2412 <= freq_mhz <= 2472 {
        (freq_mhz - 2412) / 5 + 1
    } else if freq_mhz == 2484 {
        14
    } else if 5160 <= freq_mhz <= 5885 {
        (freq_mhz - 5000) / 5
    } else if 5955 <= freq_mhz <= 7115 {
        (freq_mhz - 5955) / 5 + 1
    } else {
        0
    }
}

/// Signal level in dBm of NetworkManager's 0-100 strength.
pub open spec fn dbm_of_strength(strength: u8) -> int {
    strength / 2 - 100
}

/// Link speed in Mbit/s of a maximal bit rate in kbit/s; none when the
/// rate is 0 (unknown).
pub open spec fn link_speed_of(max_bitrate_kbps: u32) -> Option<u32> {
    if max_bitrate_kbps > 0 {
        Some((max_bitrate_kbps / 1000) as u32)
    } else {
        None
    }
}

/// Law: 2.4 GHz channel `n` (1 to 13) is centred on 2407 + 5n MHz, 5 GHz
/// channel `n` (32 to 177) on 5000 + 5n MHz, and 6 GHz channel `n` (1 to
/// 233) on 5950 + 5n MHz; channel 14 lies at 2484 MHz.
pub proof fn lemma_channel_centres(n: int)
    ensures
        1 <= n <= 13 ==> channel_of((2407 + 5 * n) as u32) == n,
        32 <= n <= 177 ==> channel_of((5000 + 5 * n) as u32) == n,
        1 <= n <= 233 ==> channel_of((5950 + 5 * n) as u32) == n,
        channel_of(2484) == 14,
{
    if 1 <= n <= 13 {
        assert((2407 + 5 * n - 2412) / 5 + 1 == n) by {
            vstd::arithmetic::div_mod::lemma_div_multiples_vanish(n - 1, 5);
        }
    }
    if 32 <= n <= 177 {
        assert((5000 + 5 * n - 5000) / 5 == n) by {
            vstd::arithmetic::div_mod::lemma_div_multiples_vanish(n, 5);
        }
    }
    if 1 <= n <= 233 {
        assert((5950 + 5 * n - 5955) / 5 + 1 == n) by {
            vstd::arithmetic::div_mod::lemma_div_multiples_vanish(n - 1, 5);
        }
    }
}

/// Law: a frequency gets a channel (a number above 0) exactly when it lies
/// in the 2.4 GHz band (2412 to 2472 MHz, or 2484 MHz for channel 14), in
/// the 5 GHz band (5160 to 5885 MHz) or in the 6 GHz band (5955 to 7115
/// MHz); any other frequency gives 0.
pub proof fn lemma_channel_bands(f: u32)
    ensures
        channel_of(f) > 0 <==> (2412 <= f <= 2472 || f == 2484 || 5160 <= f <= 5885 || 5955 <= f
            <= 7115),
        channel_of(f) >= 0,
{
}

/// Law: inside each band, 5 MHz more is exactly one channel more; in the
/// 2.4 GHz band a frequency belongs to the channel whose centre it is at
/// or above by less than 5 MHz.
pub proof fn lemma_channel_steps(f: u32)
    ensures
        2412 <= f <= 2467 ==> channel_of((f + 5) as u32) == channel_of(f) + 1,
        5160 <= f <= 5880 ==> channel_of((f + 5) as u32) == channel_of(f) + 1,
        5955 <= f <= 7110 ==> channel_of((f + 5) as u32) == channel_of(f) + 1,
        2412 <= f <= 2472 ==> 2407 + 5 * channel_of(f) <= f < 2412 + 5 * channel_of(f),
{
    let x = f as int;
    if 2412 <= x <= 2467 {
        assert((x + 5 - 2412) / 5 == (x - 2412) / 5 + 1) by {
            vstd::arithmetic::div_mod::lemma_div_plus_one(x - 2412, 5);
        }
    }
    if 2412 <= x <= 2472 {
        vstd::arithmetic::div_mod::lemma_fundamental_div_mod(x - 2412, 5);
    }
    if 5160 <= x <= 5880 {
        assert((x + 5 - 5000) / 5 == (x - 5000) / 5 + 1) by {
            vstd::arithmetic::div_mod::lemma_div_plus_one(x - 5000, 5);
        }
    }
    if 5955 <= x <= 7110 {
        assert((x + 5 - 5955) / 5 == (x - 5955) / 5 + 1) by {
            vstd::arithmetic::div_mod::lemma_div_plus_one(x - 5955, 5);
        }
    }
}

/// Law: a link speed is reported exactly when `MaxBitrate` is known (not
/// 0), and it is the whole number of Mbit/s in it: `s` Mbit/s for a rate
/// from `1000 s` up to, not including, `1000 (s + 1)` kbit/s.
pub proof fn lemma_link_speed(k: u32)
    ensures
        k == 0 ==> link_speed_of(k) is None,
        k > 0 ==> (link_speed_of(k) matches Some(s) && s * 1000 <= k < (s + 1) * 1000),
{
    if k > 0 {
        vstd::arithmetic::div_mod::lemma_fundamental_div_mod(k as int, 1000);
    }
}

/// Convert a WiFi frequency in MHz to an 802.11 channel number.
pub fn freq_to_channel(freq_mhz: u32) -> (c: u8)
    ensures
        c as int == channel_of(freq_mhz),
{
    if 2412 <= freq_mhz && freq_mhz <= 2472 {
        ((freq_mhz - 2412) / 5 + 1) as u8
    } else if freq_mhz == 2484 {
        14
    } else if 5160 <= freq_mhz && freq_mhz <= 5885 {
        ((freq_mhz - 5000) / 5) as u8
    } else if 5955 <= freq_mhz && freq_mhz <= 7115 {
        ((freq_mhz - 5955) / 5 + 1) as u8
    } else {
        0
    }
}

/// NetworkManager's strength (0-100 quality, as `nmcli` shows it) as dBm.
pub fn signal_dbm_from_strength(strength: u8) -> (dbm: i32)
    ensures
        dbm as int == dbm_of_strength(strength),
{
    (strength as i32 / 2) - 100
}

/// Link speed in Mbit/s of NetworkManager's `MaxBitrate` (kbit/s).
pub fn link_speed_from_max_bitrate(max_bitrate_kbps: u32) -> (r: Option<u32>)
    ensures
        r == link_speed_of(max_bitrate_kbps),
{
    if max_bitrate_kbps > 0 {
        Some(max_bitrate_kbps / 1000)
    } else {
        None
    }
}

/// What `String::from_utf8_lossy` makes of a byte string.
pub uninterp spec fn utf8_lossy(bytes: Seq<u8>) -> Seq<char>;

/// `String::from_utf8_lossy` from std, made an owned string. Its result is
/// a function of the bytes, named `utf8_lossy`; std documents that valid
/// UTF-8 comes back decoded as it is (invalid sequences become U+FFFD,
/// which is not stated here).
#[verifier::external_body]
fn text_from_utf8_lossy(bytes: &[u8]) -> (s: String)
    ensures
        s@ == utf8_lossy(bytes@),
        valid_utf8(bytes@) ==> s@ == decode_utf8(bytes@),
{
    String::from_utf8_lossy(bytes).into_owned()
}

/// The properties NetworkManager reports of an access point.
#[derive(Debug, Clone)]
pub struct AccessPointProperties {
    /// `Ssid`: the network name as raw bytes.
    pub ssid: Vec<u8>,
    /// `HwAddress`: the BSSID.
    pub hw_address: String,
    /// `Frequency`, in MHz.
    pub frequency: u32,
    /// `Strength`, 0 to 100.
    pub strength: u8,
    /// `MaxBitrate`, in kbit/s.
    pub max_bitrate: u32,
}

/// `info` is what the properties `p` describe.
pub open spec fn describes(info: WifiInfo, p: AccessPointProperties) -> bool {
    &&& info.ssid@ == utf8_lossy(p.ssid@)
    &&& info.bssid == p.hw_address
    &&& info.frequency_mhz == p.frequency
    &&& info.channel as int == channel_of(p.frequency)
    &&& info.signal_dbm as int == dbm_of_strength(p.strength)
    &&& info.link_speed_mbps == link_speed_of(p.max_bitrate)
}

impl WifiInfo {
    /// The connection described by an access point's properties.
    pub fn from_access_point(p: AccessPointProperties) -> (info: WifiInfo)
        ensures
            describes(info, p),
    {
        let ssid = text_from_utf8_lossy(p.ssid.as_slice());
        let channel = freq_to_channel(p.frequency);
        let signal_dbm = signal_dbm_from_strength(p.strength);
        let link_speed_mbps = link_speed_from_max_bitrate(p.max_bitrate);
        WifiInfo {
            ssid,
            bssid: p.hw_address,
            frequency_mhz: p.frequency,
            channel,
            signal_dbm,
            link_speed_mbps,
        }
    }
}

/// What the application does next while looking for the active access
/// point.
#[derive(Debug)]
pub enum ApQueryAction {
    /// Read the `DeviceType` of the device at this object path.
    ReadDeviceType(String),
    /// Read the `ActiveAccessPoint` of the wireless device at this path.
    ReadActiveAccessPoint(String),
    /// Read the properties of the access point at this path.
    ReadAccessPoint(String),
    /// The query is over, with the active access point or none.
    Finish(Option<WifiInfo>),
}

/// What the application learned from the action it performed.
#[derive(Debug)]
pub enum ApQueryEvent {
    DeviceType(u32),
    ActiveAccessPoint(String),
    AccessPoint(AccessPointProperties),
}

/// Progress of the query: NetworkManager's devices in the order it lists
/// them, and the position of the device being examined.
#[derive(Debug)]
pub struct ApQuery {
    pub devices: Vec<String>,
    pub current: usize,
}

/// The object path NetworkManager reports for "no access point".
pub open spec fn no_ap_path() -> Seq<char> {
    "/"@
}

/// The object paths of a list of devices.
pub open spec fn paths_of(devices: Seq<String>) -> Seq<Seq<char>> {
    devices.map_values(|d: String| d@)
}

/// An action as plain values: what is read, and from which path; or how
/// the query finished.
pub enum QueryMove {
    ReadDeviceType(Seq<char>),
    ReadActiveAccessPoint(Seq<char>),
    ReadAccessPoint(Seq<char>),
    FinishEmpty,
    FinishFound,
}

/// An event as plain values (the properties of an access point are left
/// out: they only finish the query).
pub enum QueryAnswer {
    DeviceType(u32),
    ActiveAccessPoint(Seq<char>),
    AccessPoint,
}

pub open spec fn move_of(a: ApQueryAction) -> QueryMove {
    match a {
        ApQueryAction::ReadDeviceType(d) => QueryMove::ReadDeviceType(d@),
        ApQueryAction::ReadActiveAccessPoint(d) => QueryMove::ReadActiveAccessPoint(d@),
        ApQueryAction::ReadAccessPoint(p) => QueryMove::ReadAccessPoint(p@),
        ApQueryAction::Finish(None) => QueryMove::FinishEmpty,
        ApQueryAction::Finish(Some(_)) => QueryMove::FinishFound,
    }
}

pub open spec fn answer_of(e: ApQueryEvent) -> QueryAnswer {
    match e {
        ApQueryEvent::DeviceType(t) => QueryAnswer::DeviceType(t),
        ApQueryEvent::ActiveAccessPoint(p) => QueryAnswer::ActiveAccessPoint(p@),
        ApQueryEvent::AccessPoint(_) => QueryAnswer::AccessPoint,
    }
}

/// The move that examines the device at position `next`, or finishes
/// empty when every device has been examined.
pub open spec fn examine_move(devices: Seq<Seq<char>>, next: int) -> QueryMove {
    if 0 <= next < devices.len() {
        QueryMove::ReadDeviceType(devices[next])
    } else {
        QueryMove::FinishEmpty
    }
}

/// Passing over the device at `current`: the next device is examined.
pub open spec fn pass_over(devices: Seq<Seq<char>>, current: int) -> (int, QueryMove) {
    if current < devices.len() {
        (current + 1, examine_move(devices, current + 1))
    } else {
        (current, QueryMove::FinishEmpty)
    }
}

/// Position and move after an answer: a wireless device is asked for its
/// active access point, any other device is passed over; a device whose
/// active access point is "/" has none and is passed over; the properties
/// of an access point finish the query with that access point.
pub open spec fn query_next(devices: Seq<Seq<char>>, current: int, answer: QueryAnswer) -> (
    int,
    QueryMove,
) {
    match answer {
        QueryAnswer::DeviceType(t) => if t == DEVICE_TYPE_WIFI && 0 <= current < devices.len() {
            (current, QueryMove::ReadActiveAccessPoint(devices[current]))
        } else {
            pass_over(devices, current)
        },
        QueryAnswer::ActiveAccessPoint(p) => if p == no_ap_path() {
            pass_over(devices, current)
        } else {
            (current, QueryMove::ReadAccessPoint(p))
        },
        QueryAnswer::AccessPoint => (current, QueryMove::FinishFound),
    }
}

/// The answer NetworkManager gives to a read, given the type of every
/// device and the active access point of every wireless device.
pub open spec fn answer_to(
    m: QueryMove,
    device_type: spec_fn(Seq<char>) -> u32,
    active_ap: spec_fn(Seq<char>) -> Seq<char>,
) -> QueryAnswer {
    match m {
        QueryMove::ReadDeviceType(d) => QueryAnswer::DeviceType(device_type(d)),
        QueryMove::ReadActiveAccessPoint(d) => QueryAnswer::ActiveAccessPoint(active_ap(d)),
        _ => QueryAnswer::AccessPoint,
    }
}

/// The move the query reaches from `m` at position `current` after at
/// most `fuel` answers, stopping at the read of an access point's
/// properties or at a finish.
pub open spec fn run_query(
    devices: Seq<Seq<char>>,
    current: int,
    m: QueryMove,
    device_type: spec_fn(Seq<char>) -> u32,
    active_ap: spec_fn(Seq<char>) -> Seq<char>,
    fuel: nat,
) -> QueryMove
    decreases fuel,
{
    if fuel == 0 {
        m
    } else {
        match m {
            QueryMove::ReadDeviceType(_) | QueryMove::ReadActiveAccessPoint(_) => {
                let (c, next) = query_next(devices, current, answer_to(m, device_type, active_ap));
                run_query(devices, c, next, device_type, active_ap, (fuel - 1) as nat)
            },
            _ => m,
        }
    }
}

/// Position, from `k` on, of the first wireless device with an active
/// access point.
pub open spec fn first_connected(
    devices: Seq<Seq<char>>,
    device_type: spec_fn(Seq<char>) -> u32,
    active_ap: spec_fn(Seq<char>) -> Seq<char>,
    k: int,
) -> Option<int>
    decreases devices.len() - k,
{
    if k < 0 || k >= devices.len() {
        None
    } else if device_type(devices[k]) == DEVICE_TYPE_WIFI && active_ap(devices[k]) != no_ap_path() {
        Some(k)
    } else {
        first_connected(devices, device_type, active_ap, k + 1)
    }
}

/// What the query ends in: reading the active access point of the first
/// connected wireless device, or finishing empty.
pub open spec fn query_outcome(
    devices: Seq<Seq<char>>,
    device_type: spec_fn(Seq<char>) -> u32,
    active_ap: spec_fn(Seq<char>) -> Seq<char>,
    k: int,
) -> QueryMove {
    match first_connected(devices, device_type, active_ap, k) {
        Some(j) => QueryMove::ReadAccessPoint(active_ap(devices[j])),
        None => QueryMove::FinishEmpty,
    }
}

proof fn lemma_run_from(
    devices: Seq<Seq<char>>,
    device_type: spec_fn(Seq<char>) -> u32,
    active_ap: spec_fn(Seq<char>) -> Seq<char>,
    k: int,
    fuel: nat,
)
    requires
        0 <= k <= devices.len(),
        fuel >= 2 * (devices.len() - k),
    ensures
        run_query(devices, k, examine_move(devices, k), device_type, active_ap, fuel)
            == query_outcome(devices, device_type, active_ap, k),
    decreases devices.len() - k,
{
    if k == devices.len() {
        assert(first_connected(devices, device_type, active_ap, k) is None);
    } else {
        let d = devices[k];
        let f1 = (fuel - 1) as nat;
        let f2 = (fuel - 2) as nat;
        lemma_run_from(devices, device_type, active_ap, k + 1, f2);
        if device_type(d) == DEVICE_TYPE_WIFI {
            assert(run_query(devices, k, examine_move(devices, k), device_type, active_ap, fuel)
                == run_query(devices, k, QueryMove::ReadActiveAccessPoint(d), device_type, active_ap, f1));
            if active_ap(d) == no_ap_path() {
                assert(run_query(devices, k, QueryMove::ReadActiveAccessPoint(d), device_type, active_ap, f1)
                    == run_query(devices, k + 1, examine_move(devices, k + 1), device_type, active_ap, f2));
            } else {
                assert(run_query(devices, k, QueryMove::ReadActiveAccessPoint(d), device_type, active_ap, f1)
                    == run_query(devices, k, QueryMove::ReadAccessPoint(active_ap(d)), device_type, active_ap, f2));
            }
        } else {
            lemma_run_from(devices, device_type, active_ap, k + 1, f1);
            assert(run_query(devices, k, examine_move(devices, k), device_type, active_ap, fuel)
                == run_query(devices, k + 1, examine_move(devices, k + 1), device_type, active_ap, f1));
        }
    }
}

/// Law: answered truthfully, the query that `ApQuery::start` begins ends,
/// within two answers per device, in reading the active access point of
/// the first wireless device (in NetworkManager's order) that has one,
/// or in finishing empty when no wireless device has one.
pub proof fn lemma_query_finds_first_connected(
    devices: Seq<Seq<char>>,
    device_type: spec_fn(Seq<char>) -> u32,
    active_ap: spec_fn(Seq<char>) -> Seq<char>,
)
    ensures
        run_query(devices, 0, examine_move(devices, 0), device_type, active_ap, 2 * devices.len())
            == query_outcome(devices, device_type, active_ap, 0),
{
    lemma_run_from(devices, device_type, active_ap, 0, 2 * devices.len());
}

impl ApQuery {
    /// Starts examining the devices from the first.
    pub fn start(devices: Vec<String>) -> (r: (ApQuery, ApQueryAction))
        ensures
            r.0.devices == devices,
            r.0.current == 0,
            move_of(r.1) == examine_move(paths_of(devices@), 0),
    {
        if devices.len() > 0 {
            let first = devices[0].clone();
            (ApQuery { devices, current: 0 }, ApQueryAction::ReadDeviceType(first))
        } else {
            (ApQuery { devices, current: 0 }, ApQueryAction::Finish(None))
        }
    }

    fn pass_over(self) -> (r: (ApQuery, ApQueryAction))
        ensures
            r.0.devices == self.devices,
            (r.0.current as int, move_of(r.1)) == pass_over(
                paths_of(self.devices@),
                self.current as int,
            ),
    {
        if self.current < self.devices.len() {
            let next = self.current + 1;
            if next < self.devices.len() {
                let d = self.devices[next].clone();
                (ApQuery { devices: self.devices, current: next }, ApQueryAction::ReadDeviceType(d))
            } else {
                (ApQuery { devices: self.devices, current: next }, ApQueryAction::Finish(None))
            }
        } else {
            (self, ApQueryAction::Finish(None))
        }
    }

    /// The next action, given what the last one found (see `query_next`);
    /// the access point's properties finish with the connection they
    /// describe.
    pub fn step(self, event: ApQueryEvent) -> (r: (ApQuery, ApQueryAction))
        ensures
            r.0.devices == self.devices,
            (r.0.current as int, move_of(r.1)) == query_next(
                paths_of(self.devices@),
                self.current as int,
                answer_of(event),
            ),
            event matches ApQueryEvent::AccessPoint(props) ==> (r.1 matches ApQueryAction::Finish(
                Some(info),
            ) && describes(info, props)),
    {
        match event {
            ApQueryEvent::DeviceType(t) => {
                if t == DEVICE_TYPE_WIFI && self.current < self.devices.len() {
                    let d = self.devices[self.current].clone();
                    (self, ApQueryAction::ReadActiveAccessPoint(d))
                } else {
                    self.pass_over()
                }
            },
            ApQueryEvent::ActiveAccessPoint(path) => {
                let none = "/".to_owned();
                if path == none {
                    self.pass_over()
                } else {
                    (self, ApQueryAction::ReadAccessPoint(path))
                }
            },
            ApQueryEvent::AccessPoint(props) => {
                let info = WifiInfo::from_access_point(props);
                (self, ApQueryAction::Finish(Some(info)))
            },
        }
    }
}

} // verus!
