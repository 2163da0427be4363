//! Helpers behind a desktop application's taskbar-badge and greeting
//! commands.
//!
//! The library holds everything those commands decide or format: which
//! platform action a badge update asks for (clear the overlay icon, install
//! an image, or accept the call unchanged on platforms without overlay
//! icons), the validation of the image dimensions, and the exact strings the
//! handlers return. The surrounding GUI shell performs the platform calls
//! and hands their outcomes back to this crate.

pub mod badge;
pub mod greeting;
