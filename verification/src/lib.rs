//! A last.fm companion for a Discord bot: the request building and signing of
//! the last.fm client, the interpretation of its replies, and the text of the
//! bot's answers to its commands and hooks.

pub mod apis;
pub mod commands;
pub mod modules;
pub mod text;
