//! Vehicle positions from a GTFS-realtime feed: the extraction of per-vehicle
//! records from the feed's optional fields, the naming of snapshot files, and
//! the decisions of the fixed-interval polling loop.

pub mod cli;
pub mod feed;
pub mod snapshot;
pub mod schedule;
