//! The records the API reads and writes.
pub mod auth;
pub mod copilot;
pub mod document;
pub mod portfolio;
pub mod review;
pub mod user;
