pub mod cli;
pub mod config;
pub mod decimal;
pub mod launch;
pub mod laws;
pub mod paths;
pub mod protocol;
pub mod setup;
