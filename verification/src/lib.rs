//! The verified core of a chat bot that tells what is being played in a
//! running osu! client.
//!
//! The bot reads the client's state out of its address space: it locates a
//! handful of code signatures in the client's memory, follows pointer chains
//! from them, and decodes the fields it reaches into one typed snapshot.
//! Memory is reached through the [`read::MemoryReader`] trait, so the same
//! verified logic runs on a live process and on a captured
//! [`image::MemoryImage`].
//!
//! Besides the reading of memory the crate holds the rules that the bot
//! follows elsewhere: the choice of the client among the running processes,
//! the text of mods, the configuration file, and the requests made in the
//! chat.

pub mod bootstrap;
pub mod chat;
pub mod client;
pub mod config;
pub mod data;
pub mod image;
pub mod layout;
pub mod mods;
pub mod pattern;
pub mod process;
pub mod read;
pub mod reply;
pub mod signature;
pub mod snapshot;
pub mod text;
pub mod utf16;
