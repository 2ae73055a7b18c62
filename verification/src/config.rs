//! Settings of the whole system, one module per area.

pub mod config;
pub mod setting;
pub mod setting_client;
pub mod setting_interface;
pub mod setting_mq;
pub mod setting_repository;
pub mod setting_telemetry;
