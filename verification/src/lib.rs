//! Verified decision logic of the Airwave TV desktop client: the mpv call protocol,
//! the playback event loop, the decode probe, the LAN discovery and the health probe.
pub mod commands;
pub mod event_loop;
pub mod health;
pub mod mpv;
pub mod probe;
pub mod subnets;
pub mod surface;
pub mod text;
