//! Core of a batch image optimizer: decodes input images, re-encodes them as
//! WebP at a configurable quality, derives output names, and isolates
//! per-item failures so one bad file never aborts the batch.
//!
//! The crate is a library of pure, contract-checked logic. File reading,
//! writing and deletion are left to the surrounding program, which drives the
//! per-item conversion through the step functions in [`convert`].

pub mod batch;
pub mod codec;
pub mod config;
pub mod convert;
pub mod naming;
