//! Verified core of a LAN remote-desktop companion: device discovery records,
//! input-event plans, screen-frame framing, session PINs and file-transfer framing.

pub mod text;
pub mod transfer;
pub mod screen;
pub mod input;
pub mod security;
pub mod discovery;
