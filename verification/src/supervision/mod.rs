pub mod all_for_one;
pub mod directive;
pub mod exponential_backoff;
pub mod restart_statistics;
pub mod supervisor_cell;
pub mod clock;
