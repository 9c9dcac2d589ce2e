//! A command-line chat client's core: settings with a bounded rolling
//! history, the requests sent to a chat-completion endpoint, and the reading
//! of its replies.

pub mod bridge;
pub mod config;
pub mod session;
pub mod settings;
