//! herdr's remote transport and configuration logic, verified.
pub mod config;
pub mod encoding;
pub mod remote;
pub mod session;
pub mod settings;
pub mod text;
pub mod ws_transport;
