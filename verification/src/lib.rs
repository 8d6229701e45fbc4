//! A verified model of a tiny tool-call protocol: a calculator provider
//! that advertises one `add` capability, validates invocation arguments
//! against the advertised schema, computes the sum, and renders it as
//! decimal text; plus the consumer-side session state machine and the
//! translation of tool descriptors into model-facing function schemas.

pub mod decimal;
pub mod provider;
pub mod schema;
pub mod session;
