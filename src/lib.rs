//! Incremental soft-wrap text layout: turns pre-segmented text plus a stream
//! of highlight events into styled cell writes inside a fixed viewport.
pub mod style;
pub mod config;
pub mod grapheme;
pub mod text_render;
pub mod cursor;
pub mod document;
