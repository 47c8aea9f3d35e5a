//! Core of a payment orchestrator: the update operation of the payment
//! pipeline, connector routing, the Nuvei connector adapter, and the
//! reconciliation of saved payment methods and mandates.
//!
//! Everything here computes on plain values. Storage, the vault and the
//! connector's HTTP endpoint are driven by the caller, which feeds what they
//! answered back into the step functions of this crate.

pub mod codec;
pub mod connector;
pub mod enums;
pub mod errors;
pub mod json;
pub mod names;
pub mod payment_method_codec;
pub mod payment_methods;
pub mod payment_update;
pub mod payments;
pub mod reconciliation;
pub mod router_data;
pub mod routing;
pub mod text;
pub mod text_map;
pub mod tokenization;
