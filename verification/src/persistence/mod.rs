//! Where the project and the settings are stored. Reading and writing
//! the files, and the JSON encoding, are the application's part.

pub mod json_store;
pub mod settings_store;

pub use json_store::JsonStore;
pub use settings_store::SettingsStore;
