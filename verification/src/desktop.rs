//! The desktop companion: its settings, the media devices and screens that
//! it offers to the local front end, and the capture sessions that it keeps.
pub mod config;
pub mod media;
pub mod network;
pub mod screen_capture;
