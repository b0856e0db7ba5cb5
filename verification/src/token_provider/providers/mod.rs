//! The token backends: their names, and the text handling each applies
//! to what it reads.

pub mod env;
pub mod exec;
pub mod file;
pub mod keychain;
