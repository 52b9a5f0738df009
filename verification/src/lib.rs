//! Core logic of `gram`, a command-line Telegram client: text shortening and
//! templating, chat references, configuration and settings, history paging,
//! and the rows that the terminal front end prints.
pub mod chat;
pub mod commands;
pub mod completion;
pub mod conf;
pub mod display;
pub mod forward;
pub mod history;
pub mod repl;
pub mod script;
pub mod settings;
pub mod text;
