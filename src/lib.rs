//! Write path of property-definition ingestion: a warm-up throttle, group-type
//! resolution through a shared cache, and the decisions that apply one batch
//! inside a single store transaction.

pub mod warmup;
pub mod types;
pub mod resolve;
pub mod issue;
