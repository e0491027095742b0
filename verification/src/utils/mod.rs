//! Helpers shared by the rest of the library.

pub mod error;
pub mod install;
pub mod paths;
pub mod system;
pub mod text;
pub mod token;

pub use error::AppError;
pub use install::Installer;
pub use token::TokenManager;
