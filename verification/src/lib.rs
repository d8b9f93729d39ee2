//! Request-authentication core: a credential codec that verifies signed
//! identity tokens, a classified error model with a staged builder, a
//! per-request authentication interceptor, and a translator from classified
//! errors to transport status codes and bodies.

pub mod config;
pub mod error;
pub mod jwt;
pub mod middleware;
pub mod records;
pub mod response;
pub mod upload;
