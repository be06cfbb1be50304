pub mod assets;
pub mod bridge;
pub mod config;
pub mod connect;
pub mod fetch;
pub mod json;
pub mod laws;
pub mod manager;
pub mod platform;
pub mod probe;
pub mod scan;
pub mod scan_task;
pub mod sources;
pub mod text;
pub mod uri;
pub mod xray_log;
