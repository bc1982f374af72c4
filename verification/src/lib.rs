//! The core of a content backend that keeps posts in two stores: an ordered
//! key-value store for content, metadata and secondary indices, and a
//! relational store for accounts, permissions and ownership.
//!
//! The stores share no transaction. This library decides what is written,
//! in which order, and what is undone when a later write fails; its caller
//! performs the writes. Nothing here touches a store.
//!
//! - `ident`, `text`, `tags`: identifiers and the tokens of tags and keywords
//! - `kv`, `index`, `content`, `jobs`: the key-value layout, its indices and
//!   the transactions on it
//! - `ownership`, `credentials`, `access`: who owns, who may, who is let in
//! - `lifecycle`, `world`: the operations across both stores and their laws
//! - `query`: listings and searches
//! - `schema`, `browser`: the table browser of the administration pages
//! - `sanitize`, `settings`, `media`, `config`, `clock`, `model`, `error`

pub mod access;
pub mod browser;
pub mod clock;
pub mod config;
pub mod content;
pub mod credentials;
pub mod error;
pub mod ident;
pub mod index;
pub mod jobs;
pub mod kv;
pub mod lifecycle;
pub mod media;
pub mod model;
pub mod ownership;
pub mod query;
pub mod sanitize;
pub mod schema;
pub mod settings;
pub mod tags;
pub mod text;
pub mod world;
