//! Site-level energy orchestration core: an asset registry driven by a
//! deterministic tick, translating balancer setpoints into OCPP charging
//! profiles and protocol telemetry into balancer metering.

pub mod text;
pub mod time;
pub mod common;
pub mod components;
pub mod ocpp_types;
pub mod ocpp_components;
pub mod messages;
pub mod registry;
pub mod balancer;
pub mod ocpp_commands;
pub mod profile;
pub mod meter;
pub mod ocpp_handler;
pub mod ocpp_init;
pub mod modbus;
pub mod config;
pub mod tick;
pub mod laws;
