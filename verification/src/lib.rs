//! The data layer between TiDB/MySQL and Kafka: client settings for the Kafka
//! consumer and producer, the decisions of the query service, and the
//! conversion of result rows into JSON objects.

pub mod configuration;
pub mod kafka;
pub mod tidb_service;
pub mod utils;
