//! What a caller asks for, independent of any graphics API.
pub mod buffer;
pub mod command;
pub mod format;
pub mod image;
pub mod memory;
pub mod pso;
pub mod query;
