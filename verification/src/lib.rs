//! Verified core of a screenshot and annotation tool: pixel buffer
//! conversions, the selection overlay state machine, hotkey labels,
//! annotation history and the small decision machines that drive the app.

pub mod annotation;
pub mod app;
pub mod bench;
pub mod blur;
pub mod capture;
pub mod hotkeys;
pub mod magnifier;
pub mod overlay;
pub mod raster;
pub mod settings;
pub mod tray;
pub mod win_overlay;
pub mod win_utils;
