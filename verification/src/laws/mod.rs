//! What holds of the library as a whole, across its functions.

pub mod assets;
pub mod bridge;
pub mod config;
pub mod connect;
pub mod probe;
pub mod scan;
pub mod sources;
pub mod text;
pub mod uri;
pub mod xray_log;
