//! The data a survey is made of: access points, measurements, floors,
//! projects and the application settings.

pub mod access_point;
pub mod calibration;
pub mod floor;
pub mod measurement;
pub mod project;
pub mod settings;
pub mod survey;

pub use access_point::AccessPoint;
pub use floor::Floor;
pub use measurement::Measurement;
pub use project::Project;
pub use settings::{AppSettings, ThroughputUnit};
pub use survey::Survey;
