use wifichecker::legend::{active_metric, ColorMetric};
use wifichecker::models::measurement::Measurement;
use wifichecker::services::iperf_client::{
    after_iperf3, iperf2_rate_candidates, poll_action, AfterIperf3, Iperf3Outcome, IperfClient,
    PollAction, RateUnit,
};
use wifichecker::services::nm_dbus::{
    freq_to_channel, link_speed_from_max_bitrate, signal_dbm_from_strength, AccessPointProperties,
    ApQuery, ApQueryAction, ApQueryEvent, DEVICE_TYPE_WIFI,
};
use wifichecker::services::smb_tester::{SmbTester, UploadProgress, CHUNK_BYTES, TEST_FILE_BYTES};
use wifichecker::services::wifi_scanner::WifiInfo;

#[test]
fn test_freq_to_channel_24ghz_ch1() {
    assert_eq!(freq_to_channel(2412), 1);
}

#[test]
fn test_freq_to_channel_24ghz_ch6() {
    assert_eq!(freq_to_channel(2437), 6);
}

#[test]
fn test_freq_to_channel_24ghz_ch11() {
    assert_eq!(freq_to_channel(2462), 11);
}

#[test]
fn test_freq_to_channel_24ghz_ch13() {
    assert_eq!(freq_to_channel(2472), 13);
}

#[test]
fn test_freq_to_channel_24ghz_ch14() {
    assert_eq!(freq_to_channel(2484), 14);
}

#[test]
fn test_freq_to_channel_5ghz_ch32() {
    assert_eq!(freq_to_channel(5160), 32);
}

#[test]
fn test_freq_to_channel_5ghz_ch36() {
    assert_eq!(freq_to_channel(5180), 36);
}

#[test]
fn test_freq_to_channel_5ghz_ch100() {
    assert_eq!(freq_to_channel(5500), 100);
}

#[test]
fn test_freq_to_channel_6ghz_ch1() {
    assert_eq!(freq_to_channel(5955), 1);
}

#[test]
fn test_freq_to_channel_unknown_returns_zero() {
    assert_eq!(freq_to_channel(0), 0);
    assert_eq!(freq_to_channel(3000), 0);
    assert_eq!(freq_to_channel(2473), 0);
}

#[test]
fn test_signal_dbm_conversion_from_strength() {
    assert_eq!(signal_dbm_from_strength(100), -50);
    assert_eq!(signal_dbm_from_strength(0), -100);
    assert_eq!(signal_dbm_from_strength(50), -75);
}

#[test]
fn channel_edges_of_bands() {
    assert_eq!(freq_to_channel(5885), 177);
    assert_eq!(freq_to_channel(5886), 0);
    assert_eq!(freq_to_channel(7115), 233);
    assert_eq!(freq_to_channel(7116), 0);
    assert_eq!(freq_to_channel(5159), 0);
}

#[test]
fn link_speed_from_bitrate() {
    assert_eq!(link_speed_from_max_bitrate(0), None);
    assert_eq!(link_speed_from_max_bitrate(999), Some(0));
    assert_eq!(link_speed_from_max_bitrate(866_700), Some(866));
}

fn props(ssid: &[u8]) -> AccessPointProperties {
    AccessPointProperties {
        ssid: ssid.to_vec(),
        hw_address: "AA:BB:CC:DD:EE:FF".to_string(),
        frequency: 5180,
        strength: 80,
        max_bitrate: 270_000,
    }
}

#[test]
fn wifi_info_from_access_point() {
    let info = WifiInfo::from_access_point(props(b"Home"));
    assert_eq!(info.ssid, "Home");
    assert_eq!(info.bssid, "AA:BB:CC:DD:EE:FF");
    assert_eq!(info.frequency_mhz, 5180);
    assert_eq!(info.channel, 36);
    assert_eq!(info.signal_dbm, -60);
    assert_eq!(info.link_speed_mbps, Some(270));
    // invalid UTF-8 becomes the replacement character
    let info = WifiInfo::from_access_point(props(&[0x48, 0xff, 0x69]));
    assert_eq!(info.ssid, "H\u{fffd}i");
}

fn finish(action: ApQueryAction) -> Option<WifiInfo> {
    match action {
        ApQueryAction::Finish(r) => r,
        other => panic!("expected the query to finish, got {other:?}"),
    }
}

#[test]
fn ap_query_without_devices_finishes_empty() {
    let (_, a) = ApQuery::start(vec![]);
    assert!(finish(a).is_none());
}

#[test]
fn ap_query_finds_first_active_wifi_device() {
    let devices = vec!["/dev/0".to_string(), "/dev/1".to_string(), "/dev/2".to_string()];
    let (q, a) = ApQuery::start(devices);
    assert!(matches!(a, ApQueryAction::ReadDeviceType(ref d) if d == "/dev/0"));
    // device 0 is ethernet
    let (q, a) = q.step(ApQueryEvent::DeviceType(1));
    assert!(matches!(a, ApQueryAction::ReadDeviceType(ref d) if d == "/dev/1"));
    // device 1 is wifi without an access point
    let (q, a) = q.step(ApQueryEvent::DeviceType(DEVICE_TYPE_WIFI));
    assert!(matches!(a, ApQueryAction::ReadActiveAccessPoint(ref d) if d == "/dev/1"));
    let (q, a) = q.step(ApQueryEvent::ActiveAccessPoint("/".to_string()));
    assert!(matches!(a, ApQueryAction::ReadDeviceType(ref d) if d == "/dev/2"));
    // device 2 is wifi and connected
    let (q, a) = q.step(ApQueryEvent::DeviceType(DEVICE_TYPE_WIFI));
    assert!(matches!(a, ApQueryAction::ReadActiveAccessPoint(ref d) if d == "/dev/2"));
    let (q, a) = q.step(ApQueryEvent::ActiveAccessPoint("/ap/7".to_string()));
    assert!(matches!(a, ApQueryAction::ReadAccessPoint(ref p) if p == "/ap/7"));
    let (_, a) = q.step(ApQueryEvent::AccessPoint(props(b"Cafe")));
    let info = finish(a).expect("an access point");
    assert_eq!(info.ssid, "Cafe");
    assert_eq!(info.channel, 36);
}

#[test]
fn ap_query_without_wifi_finishes_empty() {
    let (q, _) = ApQuery::start(vec!["/dev/0".to_string()]);
    let (_, a) = q.step(ApQueryEvent::DeviceType(14));
    assert!(finish(a).is_none());
}

#[test]
fn iperf_client_arguments() {
    let c = IperfClient::new("192.168.1.10", 5201, 5);
    assert_eq!(c.server, "192.168.1.10");
    assert_eq!(c.port, 5201);
    assert_eq!(c.duration_secs, 5);
    assert_eq!(c.iperf3_args(), vec!["-c", "192.168.1.10", "-p", "5201", "-t", "5", "-J"]);
    assert_eq!(c.iperf2_args(), vec!["-c", "192.168.1.10", "-p", "5201", "-t", "5"]);
    assert_eq!(c.timeout_secs(), 10);
    assert_eq!(IperfClient::iperf3_program(true), "/app/bin/iperf3");
    assert_eq!(IperfClient::iperf3_program(false), "iperf3");
    assert_eq!(IperfClient::iperf2_program(), "iperf");
    let c = IperfClient::new("h", 0, 0);
    assert_eq!(c.iperf2_args(), vec!["-c", "h", "-p", "0", "-t", "0"]);
    assert_eq!(IperfClient::new("h", 65535, 4_294_967_295).timeout_secs(), 4_294_967_300);
}

fn figures(output: &str) -> Vec<(String, RateUnit)> {
    iperf2_rate_candidates(output).into_iter().map(|c| (c.number, c.unit)).collect()
}

#[test]
fn iperf2_summary_line_figures() {
    let out = "------------------------------------------------------------\n\
               Client connecting to 10.0.0.2, TCP port 5001\n\
               ------------------------------------------------------------\n\
               [  3] local 10.0.0.5 port 41234 connected with 10.0.0.2 port 5001\n\
               [ ID] Interval       Transfer     Bandwidth\n\
               [  3]  0.0- 5.0 sec  38.1 MBytes  64.0 Mbits/sec\n";
    assert_eq!(figures(out), vec![("64.0".to_string(), RateUnit::Mbits)]);
}

#[test]
fn iperf2_takes_last_sec_line() {
    let out = "[  3]  0.0- 1.0 sec  1 MBytes  8.0 Mbits/sec\r\n[  3]  0.0- 2.0 sec  2 GBytes  1.5 Gbits/sec\r\ntrailer\n";
    assert_eq!(figures(out), vec![("1.5".to_string(), RateUnit::Gbits)]);
}

#[test]
fn iperf2_units_and_order() {
    let out = "x 1 sec 500 Kbits/sec then Mbits/sec 2 Gbits/sec";
    assert_eq!(
        figures(out),
        vec![
            ("500".to_string(), RateUnit::Kbits),
            ("then".to_string(), RateUnit::Mbits),
            ("2".to_string(), RateUnit::Gbits),
        ]
    );
}

#[test]
fn iperf2_no_summary() {
    assert!(figures("").is_empty());
    assert!(figures("no throughput here\n64.0 Mbits/sec\n").is_empty());
    // a unit word as the first word has no number before it
    assert!(figures("Mbits/sec sec \n").is_empty());
}

#[test]
fn smb_paths_and_login() {
    let mut t = SmbTester::new("nas", "public");
    assert_eq!(t.server, "nas");
    assert_eq!(t.share, "public");
    assert_eq!(t.share_unc(), r"\\nas\public");
    assert_eq!(t.test_file_unc(1_700_000_000_123), r"\\nas\public\wifichecker_1700000000123.dat");
    let p = t.share_path();
    assert_eq!(p.server(), "nas");
    assert_eq!(p.share(), Some("public"));
    assert_eq!(p.path(), None);
    let f = t.test_file_path(42);
    assert_eq!(f.server(), "nas");
    assert_eq!(f.share(), Some("public"));
    assert_eq!(f.path(), Some("wifichecker_42.dat"));
    assert_eq!(t.login_user(), "guest");
    assert_eq!(t.login_password(), "");
    t.username = Some("bob".to_string());
    t.password = Some("pw".to_string());
    assert_eq!(t.login_user(), "bob");
    assert_eq!(t.login_password(), "pw");
    assert_eq!(TEST_FILE_BYTES, 10 * 1024 * 1024);
    assert_eq!(CHUNK_BYTES, 1024 * 1024);
}

fn measured(smb: Option<f64>, iperf: Option<f64>) -> Measurement {
    let mut m = Measurement::new(0, 0, "s".to_string(), "b".to_string(), 2412, 1, -60);
    m.smb_mbps_bits = smb.map(f64::to_bits);
    m.iperf_mbps_bits = iperf.map(f64::to_bits);
    m
}

#[test]
fn legend_metric_choice() {
    assert_eq!(active_metric(&[]), ColorMetric::SignalDbm);
    assert_eq!(active_metric(&[measured(None, None)]), ColorMetric::SignalDbm);
    assert_eq!(active_metric(&[measured(None, None), measured(None, Some(3.0))]), ColorMetric::IperfMbps);
    assert_eq!(
        active_metric(&[measured(None, Some(3.0)), measured(Some(1.0), None)]),
        ColorMetric::SmbMbps
    );
}

#[test]
fn iperf3_falls_back_only_when_not_installed() {
    assert_eq!(after_iperf3(Iperf3Outcome::Succeeded), AfterIperf3::UseResult);
    assert_eq!(after_iperf3(Iperf3Outcome::NotInstalled), AfterIperf3::RunIperf2);
    assert_eq!(after_iperf3(Iperf3Outcome::Failed), AfterIperf3::ReportError);
}

#[test]
fn poll_kills_at_the_deadline() {
    assert_eq!(poll_action(true, 100, 20), PollAction::Collect);
    assert_eq!(poll_action(false, 19, 20), PollAction::Wait);
    assert_eq!(poll_action(false, 20, 20), PollAction::Kill);
}

#[test]
fn upload_stops_after_the_test_file() {
    let mut p = UploadProgress::new();
    let mut blocks = 0;
    while let Some(at) = p.next_offset() {
        assert_eq!(at, blocks * CHUNK_BYTES as u64);
        p.record(CHUNK_BYTES);
        blocks += 1;
    }
    assert_eq!(blocks, 10);
    assert_eq!(p.offset, TEST_FILE_BYTES);
    let mut q = UploadProgress { offset: u64::MAX - 1 };
    q.record(5);
    assert_eq!(q.offset, u64::MAX);
}
