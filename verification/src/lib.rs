//! Request tracing for a small HTTP service.
//!
//! An inbound request brings its trace context in its headers. The library
//! reads it ([`carrier`], [`propagation`]), builds the hierarchy of spans that
//! stands for the phases of the request ([`span`], [`hierarchy`]), holds the
//! parameters of the request to its validation rule ([`request`]), and drives
//! all of it as a state machine that tells its caller when to wait, what to
//! forward to the error tracker and what to answer ([`handler`],
//! [`response`], [`error`]).
//!
//! Every function is verified against its contract. The contracts speak of
//! plain mathematical models: sequences of characters for text, and a model
//! type beside each type that has private state.

pub mod carrier;
pub mod error;
pub mod handler;
pub mod hex;
pub mod hierarchy;
pub mod propagation;
pub mod request;
pub mod response;
pub mod span;
pub mod text;
