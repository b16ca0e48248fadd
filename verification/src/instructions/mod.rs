//! The operations as a caller asks for them: each first admits the caller,
//! then acts on the records.

pub mod admin;
pub mod content;
pub mod creator;
pub mod twitter;
