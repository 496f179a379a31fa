//! The Jetstream event model, the mention filter, the subscription URL and
//! the bookkeeping of the event-processing pipeline.

pub mod client;
pub mod filter;
pub mod pipeline;
pub mod types;
pub mod event;
