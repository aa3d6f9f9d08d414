pub mod result;
pub mod text;
pub mod pairs;
pub mod render;
pub mod executor;
pub mod schema;
pub mod catalog;
pub mod pogo;
pub mod loader;
pub mod config;
