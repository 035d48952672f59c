//! Personal chat histories in one canonical model: typed identifiers,
//! users, chats and messages, and the text by which a message is found.
//! Around the model stand what the loaders of the source formats share,
//! the walk that holds two histories of one chat against each other and
//! reports what differs, and the registry of the loaded datasets with the
//! boundary at which requests on them are served.

pub mod chat;
pub mod content;
pub mod entities;
pub mod error;
pub mod ids;
pub mod loader;
pub mod merge;
pub mod message;
pub mod paths;
pub mod registry;
pub mod request;
pub mod rich_text;
pub mod server;
pub mod service;
pub mod telegram;
pub mod text;
pub mod vcard;
