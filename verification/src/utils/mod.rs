pub mod stack;
pub mod text;
pub mod wait_group;
pub mod priority;
