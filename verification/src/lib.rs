//! Correlation and delivery engine for captured network exchanges.
//!
//! A response's metadata is seen when its headers arrive, its body only once
//! loading has finished. The engine keeps the metadata of the responses that
//! pass the configured filters, keyed by request id, and joins each record
//! with its body when the completion is reported.

pub mod body;
pub mod event;
pub mod filter;
pub mod headers;
pub mod listener;
pub mod table;
pub mod trace;
pub mod wait;

pub use body::{decode_body, text_of_decoded, FetchedBody};
pub use event::{Error, Event, PendingResponse};
pub use filter::{should_capture, EventStreamConfig};
pub use headers::{Header, HeaderValue, ResponseMetadata};
pub use listener::{on_body_fetched, on_loading_finished, on_response_received, pending_of};
pub use table::CorrelationTable;
pub use wait::{wait_outcome, EventResult};
