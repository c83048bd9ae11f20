//! An anonymous file drop: the rules by which an upload gets its name, its
//! extension and its links, and the keyed tokens that authorise a deletion.

pub mod alphabet;
pub mod auth;
pub mod config;
pub mod deletion;
pub mod encoding;
pub mod guards;
pub mod media;
pub mod names;
pub mod retention;
pub mod sniff;
pub mod text;
pub mod transcript;
pub mod upload;
