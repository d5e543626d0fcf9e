pub mod endpoint_state;
pub mod endpoint_statistics;
pub mod response_status;
pub mod serializer;
pub mod wire;
pub mod endpoint_reader;
pub mod process_listing;
pub mod endpoint_manager;
pub mod block_list;
pub mod loopback;
pub mod endpoint_supervisor;
pub mod wire_decoding;
pub mod statistics_table;
