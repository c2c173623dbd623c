//! Acquisition pipeline for a streaming service: metadata resolution,
//! manifest decoding, stream-mux planning, tag writing and content filing.
//!
//! Network transfers, the external muxing process and filesystem copies are
//! performed by the surrounding binary; this library holds the decisions:
//! which request to send next, how each response is read, what the muxer is
//! told to do, which tag fields are written, and where a track is filed.

pub mod json;
pub mod text;
pub mod b64;
pub mod tags;
pub mod tidal;
pub mod fs;
pub mod runner;
