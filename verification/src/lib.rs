//! Verified core of a stateful Bluesky bot: configuration defaults, the
//! Jetstream event model, mention filter and subscription, thread
//! reconstruction, the handling of a mention from storage to reply, health
//! reporting, identity caching, embedding and model request retries, memory
//! records, session cookies and access checks, and the control deck.

pub mod clock;
pub mod config;
pub mod db;
pub mod jetstream;
pub mod text;
pub mod thread;
pub mod health;
pub mod error;
pub mod action;
pub mod formatters;
pub mod runtime;
pub mod codec;
pub mod web;
pub mod processor;
pub mod embedding;
pub mod vector;
pub mod deck;
pub mod gemini;
pub mod identity;
pub mod chat;
