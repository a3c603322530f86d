//! Upgrading a room to another room version.

pub mod dialog;
pub mod info;
pub mod laws;
pub mod versions;
