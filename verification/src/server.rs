//! The application server and where its configuration comes from.

use vstd::prelude::*;

verus! {

/// The application server: bootstrap, run, shutdown.
#[derive(Debug)]
pub struct Server;

/// Environment variable that selects the run mode.
pub const ENV_RUN_MODE: &'static str = "APP_MODE";
/// Run mode used when none is selected.
pub const RUN_MODE_PRODUCTION: &'static str = "production";
/// Directory of the configuration files.
pub const CONFIG_DIR: &'static str = "config";
/// Committed baseline configuration.
pub const CONFIG_BASE_DEFAULT: &'static str = "config/default";
/// Machine-local overrides (not committed).
pub const CONFIG_BASE_LOCAL: &'static str = "config/local";
/// Prefix of environment overrides (`APP__SECTION__KEY`).
pub const ENV_PREFIX: &'static str = "APP";
/// Separator of environment overrides.
pub const ENV_SEPARATOR: &'static str = "__";

/// The configuration sources, lowest precedence first: the baseline file,
/// the run mode's file (optional), the local file (optional), then the
/// environment.
#[derive(Debug)]
pub struct ConfigLayers {
    pub run_mode: String,
    pub default_base: String,
    pub mode_base: String,
    pub local_base: String,
    pub env_prefix: String,
    pub env_separator: String,
}

/// The sources for a run mode read from the environment; without one the
/// production mode is used.
pub fn config_layers(run_mode: Option<&str>) -> (l: ConfigLayers)
    ensures
        l.run_mode@ == (match run_mode {
            Some(m) => m@,
            None => RUN_MODE_PRODUCTION@,
        }),
        l.default_base@ == CONFIG_BASE_DEFAULT@,
        l.mode_base@ == CONFIG_DIR@ + "/"@ + l.run_mode@,
        l.local_base@ == CONFIG_BASE_LOCAL@,
        l.env_prefix@ == ENV_PREFIX@,
        l.env_separator@ == ENV_SEPARATOR@,
{
    let mode = match run_mode {
        Some(m) => m.to_owned(),
        None => RUN_MODE_PRODUCTION.to_owned(),
    };
    let mut mode_base = CONFIG_DIR.to_owned();
    mode_base.append("/");
    mode_base.append(mode.as_str());
    ConfigLayers {
        run_mode: mode,
        default_base: CONFIG_BASE_DEFAULT.to_owned(),
        mode_base,
        local_base: CONFIG_BASE_LOCAL.to_owned(),
        env_prefix: ENV_PREFIX.to_owned(),
        env_separator: ENV_SEPARATOR.to_owned(),
    }
}

} // verus!
