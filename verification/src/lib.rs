//! A backend-for-frontend sign-in library: the OAuth 2.0 authorization-code
//! flow against an identity provider, modelled as a pure, verified state
//! machine over the browser session, plus the small computations behind an
//! object-upload handler. All network and store I/O stays with the caller;
//! the library decides every step and proves what each decision returns.

pub mod config;
pub mod error;
pub mod flow;
pub mod laws;
pub mod provider;
pub mod reply;
pub mod session;
pub mod storage;
