//! Client library for delivering application records to a remote
//! record-ingestion service.
//!
//! Records are wrapped into wire envelopes, grouped into size-bounded
//! batches by a stream batching state machine, serialized to the JSON
//! wire format, and described as plain HTTP requests that a thin I/O
//! layer can execute.  The grouping, serialization and response
//! classification logic is fully specified and verified; the network
//! itself stays outside this crate.

pub mod batcher;
pub mod client;
pub mod error;
pub mod json;
pub mod message;
pub mod status;
pub mod transport;
pub mod util;

pub use client::StitchClient;
pub use error::Error;
pub use message::Message;
pub use message::PlainRecord;
pub use message::RawUpsertRequest;
pub use message::UpsertRequest;
