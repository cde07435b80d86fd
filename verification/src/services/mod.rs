//! The plain-value side of the measurement services: iperf and Samba
//! speed tests and the NetworkManager access-point query.

pub mod iperf_client;
pub mod nm_dbus;
pub mod smb_tester;
pub mod wifi_scanner;

pub use iperf_client::IperfClient;
pub use wifi_scanner::WifiInfo;
pub use smb_tester::SmbTester;
