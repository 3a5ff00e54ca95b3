//! Selects a colour-adjustment shader (night light or per-window vibrance)
//! from the focused window and the time of day, and decides when the
//! compositor's shader setting has to change.

pub mod activation;
pub mod config;
pub mod reload;
pub mod shaders;
pub mod utils;
