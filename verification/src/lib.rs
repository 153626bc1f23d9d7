//! The decisions of a setup program for time tracking: which configuration
//! to write, how to find the editors that are installed, and how the plugin
//! gets into each of them. The library never touches the machine; it says
//! what it needs to know, and is told.
pub mod config;
pub mod editor_plugins;
pub mod heartbeat;
pub mod host;
pub mod preview;
pub mod probe;
pub mod reader;
pub mod search;
pub mod setup;
pub mod text;
