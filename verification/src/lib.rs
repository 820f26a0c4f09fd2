//! Renders inline JSX/TSX SVG fragments as stand-alone SVG documents.

pub mod attr_map;
pub mod attr_spelling;
pub mod config;
pub mod defaults;
pub mod expand_selection;
pub mod jsx;
pub mod parse;
pub mod pipeline;
pub mod preview_effects;
pub mod serialize;
pub mod source;
pub mod static_eval;
pub mod text;
pub mod transform;
