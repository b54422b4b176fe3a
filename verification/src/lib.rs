//! Discussions and the project conversation: the decisions a project makes
//! about runs, lookups, guidance, background work and chat history.
pub mod error;
pub mod text;
pub mod vocab;
pub mod lifecycle;
pub mod operations;
pub mod request;
pub mod lookup;
pub mod provider;
pub mod background;
pub mod guidance;
pub mod pins;
pub mod start;
pub mod digest;
pub mod history;
pub mod chat;
pub mod lookup_storage;
pub mod retry;
pub mod adoption;
pub mod chapters;
pub mod transfer;
pub mod brief;
pub mod draft;
pub mod snapshot;
