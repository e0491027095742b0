//! Switching an assistant's settings file between the default provider and an
//! alternate, key-based provider, with a backup of the default configuration.
//!
//! The library holds the rules: how a configuration is classified, what a
//! switch writes, when a backup is made or kept. It works on an in-memory
//! image of the configuration directory and records every change it makes;
//! a caller reads the files into the image and carries the recorded changes
//! out to disk.

pub mod config;
pub mod provider;
pub mod utils;
