//! Platform-independent core of the chairgap desktop toolkit: window state,
//! focus tracking, menus, local-file URL resolution and the small data
//! conversions that the native backends apply.

pub mod geo;
pub mod native;
pub mod window;
pub mod fn_utils;
pub mod menu;
pub mod webview;
pub mod app;
pub mod cef;
pub mod common;
