//! Core of a personal productivity backend: credential hashing and
//! verification, signed session tokens, the authentication gate, and the
//! assembly of bounded role-tagged message sequences for an external
//! chat-completion provider.

pub mod assembler;
pub mod auth;
pub mod chat;
pub mod config;
pub mod message;
pub mod models;
pub mod numfmt;
pub mod profile;
pub mod transport;
