//! The records and the caller of each operation, and the checks that admit
//! the caller.

pub mod admin;
pub mod content;
pub mod creator;
pub mod twitter;
