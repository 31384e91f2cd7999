//! Verified core of a status-monitoring pipeline: statuses arrive as Kafka
//! records, are decoded, stored, compared with the last known status of the
//! same check, and turned into state-change alerts.

pub mod alert_analyser;
pub mod alert_emailer;
pub mod error_logger;
pub mod kafka_parser;
pub mod kafka_source;
pub mod message;
pub mod multiplexer;
pub mod redis_client;
pub mod settings;
pub mod status;
pub mod status_book;
pub mod webhook_caller;
