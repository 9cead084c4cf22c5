pub mod blocklist;
pub mod config;
pub mod dispatch;
pub mod relay;
pub mod target;
pub mod throttle;
