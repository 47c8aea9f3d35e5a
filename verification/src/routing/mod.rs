//! Connector routing: the algorithms that a merchant configures, the keys
//! under which they are stored, their validation against the connectors of a
//! business profile, and their evaluation for one payment.

pub mod codec;
pub mod dictionary;
pub mod evaluate;
pub mod helpers;
pub mod types;
pub mod validate;
