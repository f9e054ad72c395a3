pub mod deserializer;
pub mod error;
pub mod manager;
pub mod model;
pub mod serializer;
