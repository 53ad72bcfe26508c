pub mod kickstart;
pub mod solidifier_kickstart;
pub mod tps;
