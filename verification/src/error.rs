//! The kinds of failure that the toolkit tells apart.

use vstd::prelude::*;

verus! {

/// What went wrong, by the part of the flow that failed.
///
/// Encoding, signing and RPC failures abort a run at once. A confirmation
/// failure means that the node gave no address after the wait: it may be
/// plain indexing latency and is kept apart from a hard RPC failure. A
/// broken registry invariant is fatal.
#[derive(Clone, Copy, Debug, PartialEq, Eq, Structural)]
pub enum ErrorKind {
    /// Malformed hex or JSON input.
    Encoding,
    /// Bad key material.
    Signing,
    /// Transport or protocol failure while talking to the node.
    Rpc,
    /// No address could be resolved after polling.
    Confirmation,
    /// An instance was to be written without its parent deployment.
    RegistryInvariant,
    /// The persisted registry could not be read or written.
    RegistryIo,
    /// The registry holds no address for the contract that is to be called.
    UnknownContract,
}

impl ErrorKind {
    /// A soft failure may be worth another run; every other kind is hard.
    pub fn is_soft(&self) -> (soft: bool)
        ensures
            soft == (*self == ErrorKind::Confirmation),
    {
        match self {
            ErrorKind::Confirmation => true,
            _ => false,
        }
    }
}

} // verus!
