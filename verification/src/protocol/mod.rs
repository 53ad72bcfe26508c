pub mod helper;
pub mod metrics;
