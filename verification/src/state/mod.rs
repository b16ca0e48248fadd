//! The stored records and the operations on them.

pub mod admin_list;
pub mod content;
pub mod creator_list;
pub mod twitter_account;
