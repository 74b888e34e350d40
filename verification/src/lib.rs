//! Turns an analytics event and a destination's connection settings into the
//! description of one HTTP request that inserts the event, as a JSON row, into
//! a ClickHouse table.
//!
//! Nothing here performs I/O: the request is described, never sent.

pub mod encoding;
pub mod request;
pub mod settings;
pub mod text;
