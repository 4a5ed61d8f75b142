//! A streaming client library for a local container engine: a lazily written
//! ustar archive for uploads, the framing codecs of the log and image-pull
//! streams, and the rules that turn HTTP statuses into typed endpoint outcomes.
pub mod error;
pub mod header;
pub mod chunk;
pub mod state;
pub mod buffer;
pub mod codec;
pub mod stream;
pub mod types;
pub mod client;
