//! The logic of a Discord bot that plays music when a user joins a voice
//! channel, kept apart from the Discord clients, threads and files around it.

pub mod pid;
pub mod score;
pub mod users;
pub mod channel;
pub mod internal_api;
pub mod dynamic_bot;
pub mod api;
pub mod discord_state;
pub mod commands;
