//! Backend core of a desktop chat client: a local mirror of remote chat
//! state, an event normalizer, a connection supervisor and a content cache.
//!
//! The crate decides and computes. It reads neither the network nor the
//! disk: the caller performs what the functions of this crate ask for and
//! reports back what it found. The clock is read in one place, [`clock`].
//!
//! - [`session`], [`outbound`]: the connection supervisor.
//! - [`event`], [`normalizer`]: protocol events and their uniform shape.
//! - [`records`], [`storage`], [`history`], [`requests`], [`integrity`],
//!   [`fts`]: the local mirror store.
//! - [`cache`], [`avatar`], [`image`], [`digest`], [`config`], [`asset`]: the
//!   content cache and what is served from it.
//! - [`json`], [`text`], [`rows`], [`clock`]: what the others stand on.

pub mod asset;
pub mod avatar;
pub mod cache;
pub mod clock;
pub mod config;
pub mod digest;
pub mod event;
pub mod fts;
pub mod history;
pub mod image;
pub mod integrity;
pub mod json;
pub mod normalizer;
pub mod outbound;
pub mod records;
pub mod requests;
pub mod rows;
pub mod session;
pub mod storage;
pub mod text;
