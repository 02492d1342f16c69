//! Sends one templated notification email, with an inline image, through the
//! SMTP relay of a supported webmail provider using an OAuth2 bearer token.
//!
//! The verified parts are the provider resolver, the template engine, the
//! message composition and the transport profile; network submission and file
//! access are left to the caller.
pub mod text;
pub mod provider;
pub mod template;
pub mod error;
pub mod message;
pub mod transport;
pub mod send;
