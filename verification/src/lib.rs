//! Command handling for a WeChat official-account bot that serves a
//! Clash of Clans alliance: it reads the text a member sends, decides which
//! account-service and game-data requests answer it, and words the reply.

pub mod account;
pub mod agent;
pub mod command;
pub mod config;
pub mod dialog;
pub mod model;
pub mod number;
pub mod reply;
pub mod text;
pub mod token;
