//! The decisions behind logging in to a Matrix account and upgrading a Matrix room.

pub mod login;
pub mod messages;
pub mod numeric;
pub mod room_upgrade;
pub mod text;
