pub mod editing;
pub mod engine;
pub mod history;
pub mod interaction;
pub mod laws;
pub mod model;
pub mod tool;
