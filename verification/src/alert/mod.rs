//! Warnings: when the credits that are left fall below a threshold, the people who asked
//! for it are told, once.

pub mod calls;
pub mod config;
pub mod laws;
pub mod notify;
pub mod poller;
pub mod service;
pub mod smtp_settings;
pub mod state;
pub mod types;
