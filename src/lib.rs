//! Clipboard history engine: a bounded, deduplicating history of clipboard
//! entries, the parser for the `cliphist` line format, the monitor that feeds
//! the history, and the navigation/filter model behind the history list.

pub mod entry;
pub mod history;
pub mod provider;
pub mod cliphist;
pub mod monitor;
pub mod text;
pub mod navigation;
pub mod style_service;
