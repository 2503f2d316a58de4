//! The rows that the service stores, as plain values.
pub mod device_status;
pub mod endpoint;
pub mod notify_history;
pub mod notify_target;
pub mod project;
