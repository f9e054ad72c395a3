//! Screenshot annotation core: the annotation model, the annotation engine,
//! undo/redo history, project persistence rules, export helpers and settings
//! decisions of Screenshot Hero.

pub mod annotations;
pub mod application;
pub mod capture;
pub mod dialogs;
pub mod export;
pub mod models;
pub mod palette;
pub mod paths;
pub mod persistence;
pub mod resources;
pub mod settings;
pub mod text;
pub mod window;
