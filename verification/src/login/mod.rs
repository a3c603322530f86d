//! Logging in to an account.

pub mod flow;
pub mod flow_laws;
pub mod landing_page;
pub mod laws;
pub mod pages;
pub mod registration;
pub mod state;
