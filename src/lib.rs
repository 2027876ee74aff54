//! Synchronising remote playlists into local directories: file-name
//! sanitising, listing interpretation, reconciliation of remote items against
//! a local snapshot, and the index file that records what is present.
pub mod sanitize;
pub mod text;
pub mod target;
pub mod reconcile;
pub mod listing;
pub mod fetch;
pub mod index;
pub mod config;
