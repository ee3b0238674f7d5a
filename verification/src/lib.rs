//! The logic of a chat bot for the Signal messenger: what it does with each message that reaches
//! it, what it remembers of each conversation, and how messages travel between the network and
//! the bot. The network, the database and the speech recognition are driven from outside; the
//! functions here decide what is to be done next and say so in plain values.
#![allow(unused_imports)]

pub mod bot;
pub mod clock;
pub mod codec;
pub mod content;
pub mod debug;
pub mod handler;
pub mod paths;
pub mod quick_hash;
pub mod signal;
pub mod text;
