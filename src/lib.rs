//! A catch-all mail sink: structured extraction of inbound messages,
//! attachment records, and the ordering and read-state rules of the query API.
use vstd::prelude::*;

pub mod models;
pub mod text;
pub mod date;
pub mod ingest;
pub mod records;
pub mod listing;
pub mod mime;
pub mod buffer;
pub mod config;
pub mod pipeline;

verus! {

} // verus!
