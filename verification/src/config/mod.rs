//! Configuration values and the store that keeps them.

pub mod env_map;
pub mod manager;
pub mod store;
pub mod types;

pub use types::BackupConfig;
pub use types::BackupMetadata;
pub use types::Config;
pub use types::Provider;
pub use types::TokenType;
pub use env_map::EnvMap;
pub use manager::ConfigManager;
