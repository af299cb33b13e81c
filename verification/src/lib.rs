//! Helpers around a persisted settings value: when an edited value is
//! scheduled for saving, and the order of file operations that replace the
//! settings file without exposing a half-written one.
pub mod notify;
pub mod safe_write;
pub mod writer;
