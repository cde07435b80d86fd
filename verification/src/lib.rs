//! Verified core of a WiFi coverage mapper: floor plans, measurements,
//! projects and settings, and the plain-value logic of the access-point
//! query and the speed tests that the desktop application drives.

pub mod legend;
pub mod models;
pub mod persistence;
pub mod services;
pub mod text;

pub use models::{AccessPoint, AppSettings, Floor, Measurement, Project, Survey, ThroughputUnit};
pub use persistence::json_store::{config_dir, drawings_dir};
pub use persistence::{JsonStore, SettingsStore};
pub use services::{IperfClient, SmbTester, WifiInfo};
