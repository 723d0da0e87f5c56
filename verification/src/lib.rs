//! The decisions of a Telegram bot that downloads the files sent to it.

pub mod actor;
pub mod callback;
pub mod chats;
pub mod download;
pub mod files;
pub mod intake;
pub mod laws;
pub mod link;
pub mod queue;
pub mod size;
pub mod startup;
pub mod stats;
pub mod status;
pub mod tasks;
pub mod text;
