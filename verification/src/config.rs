//! Configuration model of herdr and the queries the app makes of it.
pub mod model;

pub use self::model::{
    validated_sidebar_bounds, AdvancedConfig, AgentPanelScopeConfig, Config, ConfigReloadReport,
    ConfigReloadStatus, ExperimentalConfig, IndexedKeysConfig, KeysConfig, LoadedConfig,
    ServerConfig, ToastConfig, ToastDelivery, UiConfig,
};

use vstd::prelude::*;

verus! {

/// Environment variable that overrides the location of `config.toml`.
pub const CONFIG_PATH_ENV_VAR: &'static str = "HERDR_CONFIG_PATH";

/// Default per-pane scrollback budget, in bytes.
pub const DEFAULT_SCROLLBACK_LIMIT_BYTES: usize = 10_000_000;

impl Config {
    /// The first-run setup is shown unless `onboarding` is set; an explicit
    /// value decides.
    pub fn should_show_onboarding(&self) -> (r: bool)
        ensures
            r == (match self.onboarding {
                Some(b) => b,
                None => true,
            }),
    {
        match self.onboarding {
            Some(b) => b,
            None => true,
        }
    }
}

} // verus!
