pub mod client_config;
pub mod consumer;
pub mod producer;
