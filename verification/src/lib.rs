//! A small verified library for idempotent file acquisition with
//! typed-failure recovery: open a file, classify any failure, create the
//! file once when it is missing and creation is permitted, and otherwise
//! surface a terminal error that keeps the root cause. Reads of an open
//! handle either return the whole contents or fail without handing back a
//! truncated prefix.

pub mod acquire;
pub mod failure;
pub mod filesystem;
