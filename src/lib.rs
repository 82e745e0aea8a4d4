//! Builds a server-side TLS acceptor from PEM certificate and key material,
//! with the ALPN protocol list chosen by the HTTP protocol that will be served.

pub mod protocol;
pub mod engine;
pub mod error;
pub mod pem;
pub mod acceptor;
