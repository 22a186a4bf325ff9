//! Interfaces shared with engine implementations.

pub mod web_view;
