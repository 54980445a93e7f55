//! The protocol core of an OpenID Connect provider: the discovery document
//! and RP-initiated logout.

pub mod directory;
pub mod discovery;
pub mod end_session;
pub mod iana;
pub mod location;
pub mod oidc;
