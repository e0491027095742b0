//! Telling providers apart and switching between them.

pub mod anthropic;
pub mod detector;
pub mod glm;
pub mod switcher;

pub use anthropic::AnthropicSwitcher;
pub use detector::ProviderDetector;
pub use glm::GLMSwitcher;
pub use switcher::StatusDisplay;
