//! What differs between the platforms.

pub mod macos;
pub mod windows;
