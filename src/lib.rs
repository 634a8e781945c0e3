//! Event model, listener dispatch and layer stack of a windowed, GPU-rendered application.
pub mod application;
pub mod dispatcher;
pub mod event_system;
pub mod events;
pub mod frame_stats;
pub mod layers;
pub mod logging;
pub mod platform;
pub mod window;
