use vstd::prelude::*;

use crate::config::models::AppConfig;

verus! {

/// Settings of the client: whether it is enabled, and the API's address.
#[derive(Debug, Clone, PartialEq, Eq)]
pub struct MGMTConfig {
    pub enabled: bool,
    pub api_url: String,
}

impl Default for MGMTConfig {
    fn default() -> (c: Self)
        ensures
            !c.enabled,
            c.api_url@ == Seq::<char>::empty(),
    {
        MGMTConfig { enabled: false, api_url: String::new() }
    }
}

impl MGMTConfig {
    /// Whether the client is enabled.
    pub fn enabled(&self) -> (r: bool)
        ensures
            r == self.enabled,
    {
        self.enabled
    }
}

/// Selects the client's settings within the whole configuration.
pub struct MGMTSel;

impl MGMTSel {
    /// The client's part of the configuration.
    pub fn select(app: &AppConfig) -> (r: &MGMTConfig)
        ensures
            *r == app.mgmt,
    {
        &app.mgmt
    }
}

} // verus!
