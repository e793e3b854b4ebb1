pub mod config;
pub mod peer;
