pub mod subscription;
pub mod process_maps;
pub mod future;
pub mod dead_letter;
