//! Verified core of a Prometheus exporter for gpsd: the report model, the
//! metric store that reports update, series labels, histogram bucket layouts
//! and the reconnect backoff.

pub mod decimal;
pub mod gpsd;
pub mod labels;
pub mod gauges;
pub mod series;
pub mod metrics;
pub mod buckets;
pub mod backoff;
pub mod laws;
pub mod name_laws;
