pub mod config;
pub mod decimal;
pub mod formatter;
pub mod handlers;
pub mod status;
