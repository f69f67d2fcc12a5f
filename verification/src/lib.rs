//! Verified core of a part-based pixel-art sprite animation editor.

pub mod model;
pub mod project;
pub mod loading;
pub mod types;
pub mod text;
pub mod file;
pub mod edit;
pub mod layers;
pub mod session;
pub mod actions;
pub mod playback;
pub mod inspector;
pub mod layer_panel;
pub mod browser;
pub mod config;
pub mod persist;
pub mod laws;
pub mod imaging;
pub mod export;
pub mod canvas;
pub mod dialogs;
pub mod import;
pub mod editor;
pub mod reference;
