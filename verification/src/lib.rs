//! Status monitoring for IoT platform devices: building platform API URLs,
//! detecting device status changes between polls, planning notifications
//! and summarising device states.
pub mod components;
pub mod endpoint;
pub mod entities;
pub mod models;
pub mod notify;
pub mod platform;
pub mod poller;
pub mod text;
pub mod time;
pub mod views;
