//! Typed model of network-scanner XML reports, and the verified reduction of
//! decoded reports to host records and host-by-port CSV rows.
//!
//! - [`model`]: the report data model.
//! - [`flatten`]: one row per (host, listed port), in document order.
//! - [`batch`]: many sources combined in order, failed ones skipped.
//! - [`table`]: the rows as CSV records.
pub mod model;
pub mod flatten;
pub mod batch;
pub mod table;
