//! Types shared between the compositor's threads: identifiers, configuration
//! commands and events, and input-device descriptions.

pub mod ids;
pub mod config;
pub mod input;
