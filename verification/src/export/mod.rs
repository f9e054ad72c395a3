pub mod auto_export;
pub mod exporter;
pub mod renderer;
