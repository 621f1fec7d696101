//! Verified core of a "now playing" relay: it turns a media player's state into
//! a two-line status text and decides, tick by tick, what to send over OSC.

pub mod config;
pub mod decimal;
pub mod relay;
pub mod status;
