//! Client-side logic of a line-oriented TCP chat: classification of the
//! lines a chat server sends, the bounded message history and scroll state
//! of the terminal client, and the styled lines it draws.

pub mod text;
pub mod message;
pub mod parser;
pub mod app;
pub mod screen;
pub mod session;
pub mod theme;
pub mod render;
