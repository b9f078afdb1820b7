//! Compiles analytics requests into aggregate SQL queries: a builder of select
//! columns, filters, grouping and aggregate filters; time bucketing of timestamps
//! by granularity; and the payment metrics that build on both.

pub mod datetime;
pub mod granularity;
pub mod query;
pub mod metrics;
