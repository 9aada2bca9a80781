//! Channels through which humans and agents talk.
pub mod discord;
pub mod discord_laws;
pub mod gateway;
pub mod gateway_laws;
pub mod mentions;
pub mod reconnect;
