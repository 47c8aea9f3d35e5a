//! The adapter protocol between the pipeline and a payment processor, and
//! the adapter for Nuvei.

pub mod nuvei;
pub mod types;
pub mod webhooks;
