//! The custom resources: their settings and the validation of those settings.

pub mod broker_tuning;
pub mod kafka;
pub mod report;
pub mod tiered_storage;
pub mod tracing;
pub mod tuning_laws;
pub mod tuning_rules;
pub mod tuning_table;
pub mod tuning_validity;
