//! Content governance for a shared social-media identity: bounded membership
//! lists, an identity record with an approval threshold, and the approval
//! state machine that every piece of content goes through before it counts as
//! ready to publish.

pub mod clock;
pub mod constants;
pub mod contexts;
pub mod enums;
pub mod errors;
pub mod instructions;
pub mod keys;
pub mod laws;
pub mod program;
pub mod state;
pub mod text;
