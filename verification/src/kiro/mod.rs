//! The service behind the relay: which versions it expects, and how it grants access.

pub mod kiro_version;
pub mod sso_oidc;
