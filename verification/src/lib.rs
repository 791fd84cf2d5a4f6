//! A chat-completion gateway: admission of a request, optional enrichment of
//! the conversation with web-search snippets, assembly of the upstream call,
//! and reshaping of the upstream reply.

pub mod config;
pub mod escape;
pub mod gateway;
pub mod json;
pub mod message;
pub mod search;
pub mod text;
pub mod upstream;
