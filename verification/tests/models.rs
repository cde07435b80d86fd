use wifichecker::models::floor::Floor;
use wifichecker::models::measurement::{
    signal_quality_str, timestamp_of_reading, uuid_from_nanos, uuid_v4, Measurement,
};
use wifichecker::models::project::Project;
use wifichecker::models::settings::{measure_status, AppSettings, ThroughputUnit};
use wifichecker::services::wifi_scanner::WifiInfo;
use wifichecker::AccessPoint;

fn make_ap(frequency_mhz: u32) -> AccessPoint {
    AccessPoint {
        ssid: "Test".to_string(),
        bssid: "AA:BB:CC:DD:EE:FF".to_string(),
        frequency_mhz,
        channel: 1,
        signal_dbm: -60,
    }
}

fn make_measurement(signal_dbm: i32) -> Measurement {
    Measurement::new(
        0.5f64.to_bits(),
        0.25f64.to_bits(),
        "SSID".to_string(),
        "AA:BB:CC:DD:EE:FF".to_string(),
        2412,
        1,
        signal_dbm,
    )
}

#[test]
fn test_band_24ghz() {
    assert_eq!(make_ap(2412).band(), "2.4 GHz");
    assert_eq!(make_ap(2462).band(), "2.4 GHz");
    assert_eq!(make_ap(2400).band(), "2.4 GHz");
    assert_eq!(make_ap(4999).band(), "2.4 GHz");
}

#[test]
fn test_band_5ghz() {
    assert_eq!(make_ap(5000).band(), "5 GHz");
    assert_eq!(make_ap(5180).band(), "5 GHz");
    assert_eq!(make_ap(5885).band(), "5 GHz");
}

#[test]
fn test_band_6ghz_classified_as_5ghz() {
    assert_eq!(make_ap(5955).band(), "5 GHz");
    assert_eq!(make_ap(6000).band(), "5 GHz");
}

#[test]
fn test_band_unknown() {
    assert_eq!(make_ap(0).band(), "Unknown");
    assert_eq!(make_ap(1000).band(), "Unknown");
    assert_eq!(make_ap(2399).band(), "Unknown");
}

#[test]
fn test_project_new() {
    let p = Project::new("My Project");
    assert_eq!(p.name, "My Project");
    assert!(p.floors.is_empty());
}

#[test]
fn test_add_floor() {
    let mut p = Project::new("Test");
    p.add_floor(Floor::new("Floor 1"));
    assert_eq!(p.floors.len(), 1);
    assert_eq!(p.floors[0].name, "Floor 1");
    p.add_floor(Floor::new("Floor 2"));
    assert_eq!(p.floors.len(), 2);
}

#[test]
fn test_remove_floor_at_index() {
    let mut p = Project::new("Test");
    p.add_floor(Floor::new("Floor 1"));
    p.add_floor(Floor::new("Floor 2"));
    p.add_floor(Floor::new("Floor 3"));
    p.remove_floor(1);
    assert_eq!(p.floors.len(), 2);
    assert_eq!(p.floors[0].name, "Floor 1");
    assert_eq!(p.floors[1].name, "Floor 3");
}

#[test]
fn test_remove_floor_first() {
    let mut p = Project::new("Test");
    p.add_floor(Floor::new("Floor 1"));
    p.add_floor(Floor::new("Floor 2"));
    p.remove_floor(0);
    assert_eq!(p.floors.len(), 1);
    assert_eq!(p.floors[0].name, "Floor 2");
}

#[test]
fn test_remove_floor_out_of_bounds_does_not_panic() {
    let mut p = Project::new("Test");
    p.remove_floor(0);
    p.remove_floor(5);
    assert!(p.floors.is_empty());
}

#[test]
fn test_remove_last_floor() {
    let mut p = Project::new("Test");
    p.add_floor(Floor::new("Only Floor"));
    p.remove_floor(0);
    assert!(p.floors.is_empty());
}

#[test]
fn test_project_new_with_owned_string() {
    let p = Project::new(&String::from("My Building"));
    assert_eq!(p.name, "My Building");
}

#[test]
fn add_then_remove_floor_restores_names() {
    let mut p = Project::new("Law");
    p.add_floor(Floor::new("A"));
    p.add_floor(Floor::new("B"));
    p.add_floor(Floor::new("C"));
    let n = p.floors.len();
    p.remove_floor(n - 1);
    let names: Vec<&str> = p.floors.iter().map(|f| f.name.as_str()).collect();
    assert_eq!(names, vec!["A", "B"]);
}

#[test]
fn floor_new_is_empty() {
    let f = Floor::new("Ground");
    assert_eq!(f.name, "Ground");
    assert!(f.image_path.is_none());
    assert!(f.drawing_path.is_none());
    assert!(f.measurements.is_empty());
    assert!(f.scale_px_per_m_bits.is_none());
    assert!(f.calib_point_a_bits.is_none());
    assert!(f.calib_point_b_bits.is_none());
    assert!(f.pdf_page.is_none());
    assert!(f.origin_bits.is_none());
}

#[test]
fn remove_measurement_keeps_others_in_order() {
    let mut f = Floor::new("F");
    for (i, dbm) in [-40, -50, -60, -70].iter().enumerate() {
        let mut m = make_measurement(*dbm);
        m.id = format!("m{}", i % 3);
        f.add_measurement(m);
    }
    // ids: m0, m1, m2, m0
    f.remove_measurement("m0");
    let ids: Vec<&str> = f.measurements.iter().map(|m| m.id.as_str()).collect();
    assert_eq!(ids, vec!["m1", "m2"]);
    let dbms: Vec<i32> = f.measurements.iter().map(|m| m.signal_dbm).collect();
    assert_eq!(dbms, vec![-50, -60]);
    // removing again changes nothing
    f.remove_measurement("m0");
    assert_eq!(f.measurements.len(), 2);
    // unknown id changes nothing
    f.remove_measurement("nope");
    assert_eq!(f.measurements.len(), 2);
}

#[test]
fn add_then_remove_measurement_restores() {
    let mut f = Floor::new("F");
    let mut a = make_measurement(-45);
    a.id = "a".to_string();
    f.add_measurement(a);
    let mut b = make_measurement(-65);
    b.id = "b".to_string();
    f.add_measurement(b);
    f.remove_measurement("b");
    assert_eq!(f.measurements.len(), 1);
    assert_eq!(f.measurements[0].id, "a");
    assert_eq!(f.name, "F");
}

#[test]
fn signal_quality_percent_values() {
    assert_eq!(make_measurement(-30).signal_quality_percent(), 100);
    assert_eq!(make_measurement(-10).signal_quality_percent(), 100);
    assert_eq!(make_measurement(-90).signal_quality_percent(), 0);
    assert_eq!(make_measurement(-120).signal_quality_percent(), 0);
    assert_eq!(make_measurement(-60).signal_quality_percent(), 50);
    // (-70 + 90) * 100 / 60 = 33
    assert_eq!(make_measurement(-70).signal_quality_percent(), 33);
}

#[test]
fn signal_quality_words() {
    assert_eq!(signal_quality_str(0), "Excellent");
    assert_eq!(signal_quality_str(-50), "Excellent");
    assert_eq!(signal_quality_str(-51), "Good");
    assert_eq!(signal_quality_str(-60), "Good");
    assert_eq!(signal_quality_str(-61), "Fair");
    assert_eq!(signal_quality_str(-70), "Fair");
    assert_eq!(signal_quality_str(-71), "Poor");
    assert_eq!(signal_quality_str(-80), "Poor");
    assert_eq!(signal_quality_str(-81), "No signal");
    assert_eq!(signal_quality_str(5), "No signal");
}

#[test]
fn uuid_from_known_nanos() {
    // t = 0x12345678: groups t, t>>16, 4 + (t>>4)&0xfff, 0x8000|((t>>2)&0x3fff), t<<24
    assert_eq!(uuid_from_nanos(0x1234_5678), "12345678-1234-4567-959e-12345678000000");
    assert_eq!(uuid_from_nanos(0), "00000000-0000-4000-8000-000000000000");
    assert_eq!(uuid_from_nanos(1), "00000001-0000-4000-8000-000001000000");
}

#[test]
fn uuid_v4_has_uuid_layout() {
    let id = uuid_v4();
    let groups: Vec<&str> = id.split('-').collect();
    assert_eq!(groups.len(), 5);
    assert_eq!(groups[0].len(), 8);
    assert_eq!(groups[1].len(), 4);
    assert_eq!(groups[2].len(), 4);
    assert!(groups[2].starts_with('4'));
    assert_eq!(groups[3].len(), 4);
    assert!(groups[4].len() >= 12);
    assert!(id.chars().all(|c| c == '-' || c.is_ascii_hexdigit()));
}

#[test]
fn measurement_new_fields() {
    let m = Measurement::new(
        0.1f64.to_bits(),
        0.9f64.to_bits(),
        "Home".to_string(),
        "11:22:33:44:55:66".to_string(),
        5180,
        36,
        -55,
    );
    assert_eq!(f64::from_bits(m.x_bits), 0.1);
    assert_eq!(f64::from_bits(m.y_bits), 0.9);
    assert_eq!(m.ssid, "Home");
    assert_eq!(m.bssid, "11:22:33:44:55:66");
    assert_eq!(m.frequency_mhz, 5180);
    assert_eq!(m.channel, 36);
    assert_eq!(m.signal_dbm, -55);
    assert!(m.noise_dbm.is_none());
    assert!(m.link_speed_mbps.is_none());
    assert!(m.iperf_mbps_bits.is_none());
    assert!(m.smb_mbps_bits.is_none());
    assert!(m.timestamp_secs > 1_600_000_000);
    assert!(m.timestamp_subsec_nanos < 1_000_000_000);
}

#[test]
fn measurement_from_scan_keeps_figures() {
    let info = WifiInfo {
        ssid: "Office".to_string(),
        bssid: "AA:AA:AA:AA:AA:AA".to_string(),
        frequency_mhz: 2437,
        channel: 6,
        signal_dbm: -48,
        link_speed_mbps: Some(144),
    };
    let m = Measurement::from_scan(0.3f64.to_bits(), 0.4f64.to_bits(), &info, Some(94.5f64.to_bits()), None);
    assert_eq!(m.ssid, "Office");
    assert_eq!(m.channel, 6);
    assert_eq!(m.signal_dbm, -48);
    assert!(m.link_speed_mbps.is_none());
    assert_eq!(m.iperf_mbps_bits.map(f64::from_bits), Some(94.5));
    assert!(m.smb_mbps_bits.is_none());
}

#[test]
fn settings_defaults() {
    let s = AppSettings::default();
    assert!(!s.iperf_enabled);
    assert_eq!(s.iperf_server, "");
    assert_eq!(s.iperf_port, 5201);
    assert_eq!(s.iperf_duration_secs, 5);
    assert_eq!(s.iperf_parallel_streams, 4);
    assert!(!s.smb_enabled);
    assert_eq!(s.smb_server, "");
    assert_eq!(s.smb_share, "");
    assert_eq!(s.smb_username, "");
    assert_eq!(s.smb_password, "");
    assert!(s.show_grid);
    assert_eq!(f64::from_bits(s.grid_spacing_m_bits), 1.0);
    assert_eq!(f64::from_bits(s.measurement_grid_spacing_m_bits), 1.0);
    assert!(!s.snap_to_grid);
    assert_eq!(s.throughput_unit, ThroughputUnit::Mbit);
    assert_eq!(ThroughputUnit::default(), ThroughputUnit::Mbit);
}

#[test]
fn settings_decide_speed_tests() {
    let mut s = AppSettings::default();
    assert!(!s.runs_iperf());
    s.iperf_enabled = true;
    assert!(!s.runs_iperf());
    s.iperf_server = "10.0.0.2".to_string();
    assert!(s.runs_iperf());
    let c = s.iperf_client();
    assert_eq!(c.server, "10.0.0.2");
    assert_eq!(c.port, 5201);
    assert_eq!(c.duration_secs, 5);

    s.smb_enabled = true;
    assert!(!s.runs_smb());
    s.smb_server = "nas".to_string();
    s.smb_share = "public".to_string();
    assert!(s.runs_smb());
    let t = s.smb_tester();
    assert_eq!(t.server, "nas");
    assert_eq!(t.share, "public");
    assert!(t.username.is_none());
    assert!(t.password.is_none());
    s.smb_username = "alice".to_string();
    s.smb_password = "secret".to_string();
    let t = s.smb_tester();
    assert_eq!(t.username.as_deref(), Some("alice"));
    assert_eq!(t.password.as_deref(), Some("secret"));
}

#[test]
fn measure_status_texts() {
    assert_eq!(measure_status(true, true), "Scanning + iperf3 + Samba\u{2026}");
    assert_eq!(measure_status(true, false), "Scanning + iperf3\u{2026}");
    assert_eq!(measure_status(false, true), "Scanning + Samba\u{2026}");
    assert_eq!(measure_status(false, false), "Scanning WiFi\u{2026}");
}

#[test]
fn project_floor_helpers() {
    let mut p = Project::new("P");
    p.ensure_floor();
    assert_eq!(p.floors.len(), 1);
    assert_eq!(p.floors[0].name, "Floor 1");
    p.ensure_floor();
    assert_eq!(p.floors.len(), 1);
    assert_eq!(p.next_floor_name(), "Floor 2");
    p.add_floor(Floor::new(&p.next_floor_name()));
    assert_eq!(p.floors[1].name, "Floor 2");
    assert_eq!(p.next_floor_name(), "Floor 3");

    let mut m = make_measurement(-50);
    m.id = "x".to_string();
    p.floors[0].add_measurement(m.clone());
    p.floors[1].add_measurement(m);
    p.clear_floor_measurements(0);
    assert!(p.floors[0].measurements.is_empty());
    assert_eq!(p.floors[1].measurements.len(), 1);
    p.clear_floor_measurements(7);
    assert_eq!(p.floors[1].measurements.len(), 1);
    p.clear_all_measurements();
    assert!(p.floors.iter().all(|f| f.measurements.is_empty()));

    assert!(p.rename_floor(1, "  Attic \n"));
    assert_eq!(p.floors[1].name, "Attic");
    assert!(!p.rename_floor(1, " \t "));
    assert_eq!(p.floors[1].name, "Attic");

    assert_eq!(Project::floor_after_removal(0, 3), 0);
    assert_eq!(Project::floor_after_removal(1, 3), 1);
    assert_eq!(Project::floor_after_removal(2, 3), 1);
}

#[test]
fn timestamp_after_epoch_is_the_reading() {
    assert_eq!(timestamp_of_reading(true, 1_700_000_000, 123), (1_700_000_000, 123));
    assert_eq!(timestamp_of_reading(true, 0, 0), (0, 0));
}

#[test]
fn timestamp_before_epoch_counts_backwards() {
    // 1.25 s before the epoch is -2 s plus 0.75 s.
    assert_eq!(timestamp_of_reading(false, 1, 250_000_000), (-2, 750_000_000));
    assert_eq!(timestamp_of_reading(false, 5, 0), (-5, 0));
}

#[test]
fn timestamp_beyond_i64_is_held_at_the_end() {
    assert_eq!(timestamp_of_reading(true, u64::MAX, 5), (i64::MAX, 999_999_999));
    assert_eq!(timestamp_of_reading(false, u64::MAX, 5), (i64::MIN, 0));
    assert_eq!(timestamp_of_reading(false, 1u64 << 63, 0), (i64::MIN, 0));
}
