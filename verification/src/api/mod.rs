pub mod auth;
pub mod contacts;
pub mod messaging;
pub mod telemetry;
