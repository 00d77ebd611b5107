//! Core scheduling logic of a wallpaper daemon: per-output surface state,
//! shared configuration with a reload flag, and the passes of the dispatch
//! loop that drive every surface through its handshake and steady state.

pub mod laws;
pub mod scheduler;
pub mod surface;
pub mod wallpaper_config;
pub mod wallpaper_info;
