//! Storage providers.

pub mod memory;
pub mod sqlite;

pub use memory::MemoryProvider;
