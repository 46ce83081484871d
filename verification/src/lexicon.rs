//! Data shapes of the wire protocol, grouped by namespace.
//!
//! These are plain values: timestamps travel as RFC 3339 text and
//! content addresses as their string form, exactly as they appear on the
//! wire.  Encoding to and decoding from the wire is the driver's job.

pub mod app;
pub mod com;
