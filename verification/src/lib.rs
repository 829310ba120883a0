//! Parsing and encoding of Twitch's IRC-based chat protocol.
pub mod text;
pub mod io_errors;
pub mod maybe_owned;
pub mod irc;
pub mod commands;
pub mod messages;
pub mod runner;
pub mod decoder;
pub mod channel;
pub mod writer;
pub mod encoder;
pub mod dispatcher;
pub mod handshake;
pub mod ext;
