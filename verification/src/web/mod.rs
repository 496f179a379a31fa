//! The control deck's request-independent logic: session cookies, access
//! checks and the values its pages are built from.

pub mod auth;
pub mod cookies;
pub mod handlers;
pub mod server;
pub mod templates;
pub mod user_client;
