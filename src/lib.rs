//! Request-parameter normalization and response envelopes for an OpenAI-compatible
//! completion API.
//!
//! Sampling scalars are exact decimals ([`fixed::Fixed`], whole millionths). The
//! [`range`] module checks them against inclusive ranges and rescales them between
//! ranges; [`options`] turns the raw fields of a request into canonical sampling
//! and stop configurations; [`envelope`] holds the streaming frames, the generic
//! response envelope and the delta-generator contract.

use vstd::prelude::*;

pub mod envelope;
pub mod error;
pub mod fixed;
pub mod options;
pub mod range;
pub mod text;

verus! {

} // verus!
