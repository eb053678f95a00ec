//! A verified core for a fitness-coaching chat bot.
//!
//! The library holds everything the bot decides: the conversation state
//! machine, the input validators and parsers, the prompt formatter, the
//! keyboard builder and the rendering of replies.  All I/O — the chat
//! transport, the database and the text-generation service — stays outside;
//! the surrounding program performs the queries and writes that the state
//! machine asks for and feeds the results back in as plain values.

pub mod client;
pub mod commands;
pub mod email;
pub mod keyboard;
pub mod machine;
pub mod parse;
pub mod profile;
pub mod prompt;
pub mod render;
pub mod text;
