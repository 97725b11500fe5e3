//! Request handling rules of the remote-desktop admin console: who may see
//! and change which users, devices and groups, how logins are checked, how
//! listings are filtered and paged, and how the device trees are assembled.
//! The HTTP server, the database and the JSON encoding live in `app/`.

pub mod error;
pub mod text;
pub mod records;
pub mod password;
pub mod access;
pub mod listing;
pub mod summary;
pub mod tree;
pub mod login;
pub mod config;
