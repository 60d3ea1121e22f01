pub mod broker_patch;
pub mod calendar;
pub mod consistency_laws;
pub mod data_consistency;
pub mod decimal;
pub mod dev_addons;
pub mod fingerprint;
pub mod health_model;
pub mod issue_laws;
pub mod mcp;
pub mod text;
