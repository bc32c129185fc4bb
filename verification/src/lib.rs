//! A verified natural-language command core for a team chat bot.
//!
//! The library turns free-form chat messages about a sports team's schedule
//! and volunteer sign-ups into structured commands.  It covers the intent
//! classifier with its entity extractors, the confidence gate that lets a
//! user mid-conversation reply without re-mentioning the bot, the expiring
//! per-user conversation context store, and the intent-to-command
//! translator.  Network and spreadsheet plumbing live outside the library.

pub mod clock;
pub mod command;
pub mod context;
pub mod dates;
pub mod error;
pub mod events;
pub mod extract;
pub mod facts;
pub mod intent;
pub mod laws;
pub mod models;
pub mod moderators;
pub mod overview;
pub mod reminder;
pub mod rng;
pub mod text;
pub mod times;
pub mod weather;
