use vstd::prelude::*;

use super::setting::SystemSetting;
use super::setting_client::ClientSystemSetting;
use super::setting_interface::InterfacesSystemSetting;
use super::setting_repository::RepositorySystemSetting;
use super::setting_telemetry::TelemetrySystemSetting;

verus! {

/// Config struct for system
#[derive(Debug)]
pub struct SystemConfig {
    pub system: SystemSetting,
    pub interfaces: InterfacesSystemSetting,
    pub repository: RepositorySystemSetting,
    pub clients: ClientSystemSetting,
    pub telemetry: TelemetrySystemSetting,
}

impl SystemConfig {
    /// The telemetry section.
    pub fn telemetry(&self) -> (t: &TelemetrySystemSetting)
        ensures
            t == &self.telemetry,
    {
        &self.telemetry
    }
}

} // verus!
