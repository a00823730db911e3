//! FileHide: quick hiding of Windows files and folders by their attributes.
//!
//! Locking an item records its original attribute mask in a history
//! database, writes a small `:FileHide` recovery marker next to it, and sets
//! the hidden and system attributes; restoring sets the recorded mask back.
//! This crate holds the rules of those operations, proved with Verus: the
//! attribute masks, the marker format, path handling, the live protection
//! status, the access password and session gate, and the lock, restore and
//! recovery transactions with their compensating steps. The file system, the
//! database and the user interface are driven by the caller, which performs
//! the actions that the transactions ask for and reports their outcome.

pub mod batch;
pub mod file_attributes;
pub mod locking;
pub mod marker;
pub mod models;
pub mod password;
pub mod paths;
pub mod records;
pub mod recovery;
pub mod restoring;
pub mod scan;
pub mod session;
pub mod status;
pub mod text;
pub mod transaction;
pub mod webview;
