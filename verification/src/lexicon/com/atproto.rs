pub mod repo;
pub mod server;
