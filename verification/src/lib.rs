pub mod actor;
pub mod cli;
pub mod container_actor;
pub mod containers;
pub mod kafka_config;
pub mod mock;
pub mod ports;
pub mod retry;
pub mod runner;
pub mod scenario;
pub mod scheduler;
pub mod service_actor;
pub mod strmap;
pub mod text;
