//! The decisions of a tray-resident desktop widget: what a close request leads to under the
//! close-to-tray preference, what the tray's menu and icon ask of the window, and how the
//! tray's icon is loaded. The windowing host carries the decisions out.

pub mod action;
pub mod greeting;
pub mod icon;
pub mod preference;
pub mod tray;
pub mod window;
