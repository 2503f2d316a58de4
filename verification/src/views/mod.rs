//! The decisions behind the pages: form fields, filters and the dashboard
//! summary.
pub mod dashboard;
pub mod endpoints;
pub mod history;
pub mod notify_targets;
pub mod projects;
