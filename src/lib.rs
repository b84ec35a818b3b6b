//! Periodically fetches the picture of the day, keeps it on disk, stamps its
//! description on it and sets it as the desktop background.
//!
//! This crate holds the decisions: when a refresh is needed, which steps a
//! refresh cycle takes and in what order, how each platform applies a
//! wallpaper, and how the process schedules its cycles. The program around it
//! performs the steps (network, files, child processes) and reports back.

pub mod arguments;
pub mod bingapiclient;
pub mod bingwallpaperchanger;
pub mod configuration;
pub mod freshness;
pub mod text;
pub mod textoverlay;
pub mod wallpaper_changer;

pub use arguments::BingWallpaperArguments;
pub use bingapiclient::{BingAPIImagesArchive, BingAPIImagesArchiveImage};
pub use bingwallpaperchanger::ChangeCycle;
pub use configuration::BingWallpaperConfiguration;
pub use textoverlay::TextOverlay;
