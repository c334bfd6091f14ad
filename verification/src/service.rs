//! The exchange with the service that builds the key tree, signs and
//! verifies: what is asked of it, what it answers, and how a run can fail.

use crate::params::{LmotsTypeId, LmsTypeId};
use vstd::prelude::*;

verus! {

/// Why a run was given up.
#[derive(Clone, Copy, Debug, PartialEq, Eq, Structural)]
pub enum Failure {
    /// The service could not build the key tree.
    TreeConstruction,
    /// The service could not sign.
    Signing,
    /// The service could not carry out the verification.
    Verification,
    /// The service found a signature of its own making invalid.
    SignatureRejected,
    /// The service could not tell the parameters of the one-time signature.
    ParameterLookup,
    /// A sampled leaf, counted from the tree's base offset, has no index.
    LeafOutOfRange,
    /// The public key or a signature has not the length that the
    /// structural parameters fix.
    LayoutMismatch,
    /// The event answers no request that is open.
    UnexpectedEvent,
}

/// What the service is to do next.
#[derive(Clone, Copy, Debug, PartialEq, Eq, Structural)]
pub enum Action {
    /// Build the key tree for these identifiers.
    BuildTree { lms_type: LmsTypeId, lmots_type: LmotsTypeId },
    /// Sign the message with the private key of this leaf of the tree.
    Sign { leaf_index: u32 },
    /// Verify the signature just made against the message and the public key.
    Verify,
    /// Tell the parameters of this one-time signature.
    QueryParameters { lmots_type: LmotsTypeId },
    /// Nothing more: the fixture can be taken and emitted.
    Emit,
    /// Nothing more: the run has failed.
    Abort { failure: Failure },
}

/// What the service answered.
#[derive(Clone, Debug)]
pub enum Event {
    /// The tree stands: the offset at which its leaves are counted, and the
    /// serialized public key.
    TreeBuilt { base_offset: u32, public_key: Vec<u8> },
    /// The serialized signature.
    Signed { signature: Vec<u8> },
    /// The outcome of a verification.
    Verified { valid: bool },
    /// The number of Winternitz chains.
    Parameters { chain_count: u16 },
    /// The request failed.
    ServiceFailed,
}

pub enum EventView {
    TreeBuilt { base_offset: u32, public_key: Seq<u8> },
    Signed { signature: Seq<u8> },
    Verified { valid: bool },
    Parameters { chain_count: u16 },
    ServiceFailed,
}

impl View for Event {
    type V = EventView;

    open spec fn view(&self) -> EventView {
        match *self {
            Event::TreeBuilt { base_offset, public_key } => EventView::TreeBuilt {
                base_offset,
                public_key: public_key@,
            },
            Event::Signed { signature } => EventView::Signed { signature: signature@ },
            Event::Verified { valid } => EventView::Verified { valid },
            Event::Parameters { chain_count } => EventView::Parameters { chain_count },
            Event::ServiceFailed => EventView::ServiceFailed,
        }
    }
}

} // verus!
