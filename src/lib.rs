//! Request and response transformers for the Globepay payment gateway.
//!
//! The orchestrator-side model lives in [`enums`] and [`types`]; the gateway's
//! wire shapes and the verified conversions between the two live in
//! [`transformers`].
pub mod enums;
pub mod types;
pub mod transformers;
