//! The logic of a watch that shows and drives remote terminal sessions: gestures, screens,
//! menus, text, messages, uploads and power decisions. Everything here computes on plain
//! values; drivers, sockets and drawing stand outside.
pub mod app;
pub mod audio;
pub mod background;
pub mod ble_provision;
pub mod boot;
pub mod calendar;
pub mod exio;
pub mod geometry;
pub mod json;
pub mod lcd;
mod lists;
pub mod mqtt;
pub mod network;
pub mod new_jpg;
pub mod ota;
pub mod power;
pub mod protocol;
pub mod remote;
pub mod setting;
pub mod text;
pub mod touch;
pub mod ui;
pub mod util;
