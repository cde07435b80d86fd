use vstd::prelude::*;
use crate::persistence::json_store::{join_path, path_join};

verus! {

/// Stores the application settings as a JSON file.
pub struct SettingsStore;

impl SettingsStore {
    /// The settings file inside `config_dir`.
    pub fn path(config_dir: &str) -> (p: String)
        ensures
            p@ == path_join(config_dir@, "settings.json"@),
    {
        join_path(config_dir, "settings.json")
    }
}

} // verus!
