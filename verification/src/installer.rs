//! The read-only view of the installer that the server consults: the
//! configuration serialized as JSON text, and the configured default
//! install path.

use vstd::prelude::*;
use vstd::string::*;

verus! {

/// The installer state the server reads.  Both fields are fixed at
/// construction; no request handler changes them.
pub struct InstallerFramework {
    pub config_json: String,
    pub default_path: Option<String>,
}

impl InstallerFramework {
    /// Builds the facade from the serialized configuration and the
    /// optional default install path.
    pub fn new(config_json: String, default_path: Option<String>) -> (r: InstallerFramework)
        ensures
            r.config_json@ == config_json@,
            r.default_path.deep_view() == default_path.deep_view(),
    {
        InstallerFramework { config_json, default_path }
    }

    /// The configuration's JSON serialization.
    pub fn get_config_json(&self) -> (r: &String)
        ensures
            r@ == self.config_json@,
    {
        &self.config_json
    }

    /// The configured default install path, or `None` when there is
    /// none.
    pub fn get_default_path(&self) -> (r: Option<String>)
        ensures
            r.deep_view() == self.default_path.deep_view(),
    {
        match &self.default_path {
            Option::Some(p) => Some(p.clone()),
            Option::None => None,
        }
    }
}

} // verus!
