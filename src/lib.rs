//! Choosing a removable disk and handing it, by its raw device address, to a
//! privileged helper that writes a disk image onto it.
//!
//! `text` holds decimal numerals, `device` the device records, `error` the
//! ways a run fails, `resolve` the drive-letter to physical-disk mapping, and
//! `session` the decisions taken between the steps of one run.
pub mod text;
pub mod device;
pub mod error;
pub mod resolve;
pub mod session;
