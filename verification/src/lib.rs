//! Test fixtures for a verifier of LMS signatures: from the parameters of
//! the scheme to the text of a test program that carries a signed message,
//! the public key and the signatures in the byte layout that the verifier
//! reads in place.
//!
//! A run checks its parameters and resolves the algorithm identifiers
//! ([`config`], [`params`]), draws the leaves of the key tree to sign under
//! ([`sampler`]), lets the signing service sign under each of them
//! ([`orchestrator`], [`service`]), and renders the fixture ([`fixture`],
//! [`emitter`]).

pub mod config;
pub mod emitter;
pub mod fixture;
pub mod orchestrator;
pub mod params;
pub mod sampler;
pub mod scaffold;
pub mod service;
pub mod text;
