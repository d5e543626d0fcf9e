pub mod identity;
pub mod config;
pub mod topology;

pub mod virtual_actor;
pub mod in_memory_provider;
