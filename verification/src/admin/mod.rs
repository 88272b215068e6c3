//! What an administrator does: sign credentials in.

pub mod calls;
pub mod laws;
pub mod poll;
pub mod sso;
