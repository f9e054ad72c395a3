pub mod loader;
pub mod service;
