use vstd::prelude::*;
use super::setting::IpAddress;

verus! {

#[derive(Debug)]
pub struct TelemetrySystemSetting {
    pub logger: LoggerSetting,
    pub metrics: MetricsSetting,
    pub tracing: TracingSetting,
}

#[derive(Debug)]
pub struct LoggerSetting {
    pub level: String,
    pub output: Vec<String>,
    pub caller: bool,
    pub stacktrace_level: String,
    pub file: LoggerFileSetting,
}

#[derive(Debug)]
pub struct LoggerFileSetting {
    pub enabled: bool,
    pub folder: String,
    pub filename: String,
    pub max_size_mb: u64,
    pub max_backups: u32,
    pub max_age_days: u32,
    pub compress: bool,
}

#[derive(Debug)]
pub struct MetricsSetting {
    pub enabled: bool,
    pub path: String,
    pub port: u16,
    pub host: IpAddress,
    pub namespace: String,
    pub collect_interval_secs: u64,
}

#[derive(Debug)]
pub struct TracingSetting {
    pub enabled: bool,
    pub service_name: String,
    pub service_version: String,
    pub otlp_endpoint: String,
    pub protocol: String,
    /// IEEE-754 bit pattern of the sampling ratio (floating point stays outside
    /// the verified code; `f64::from_bits` recovers the value).
    pub sampling_ratio_bits: u64,
    pub propagation: Vec<String>,
    pub batch: TracingBatchSetting,
    pub headers: std::collections::HashMap<String, String>,
}

#[derive(Debug)]
pub struct TracingBatchSetting {
    pub max_queue_size: usize,
    pub max_export_batch_size: usize,
    pub schedule_delay_ms: u64,
    pub export_timeout_ms: u64,
}

} // verus!
