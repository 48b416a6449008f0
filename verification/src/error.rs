//! Errors of the archive core.

use vstd::prelude::*;

verus! {

/// Why one batched RPC round trip failed. Transport-level failure is
/// all-or-nothing per batch: a batch is never partially decoded.
#[derive(Debug, Clone, Copy, PartialEq, Eq, Structural)]
pub enum RpcError {
    /// The network round trip itself failed.
    Transport,
    /// The response arrived but could not be decoded.
    Decode,
    /// The upstream node reported an error.
    Remote,
}

impl RpcError {
    /// True for failures on this side of the wire (transport or decoding),
    /// false for errors the upstream node itself reported. Callers use this
    /// to classify a failure as retry-worthy or fatal.
    pub open spec fn spec_is_client_side(self) -> bool {
        !(self is Remote)
    }

    pub fn is_client_side(&self) -> (r: bool)
        ensures
            r == self.spec_is_client_side(),
    {
        match self {
            RpcError::Transport => true,
            RpcError::Decode => true,
            RpcError::Remote => false,
        }
    }
}

/// An error of the archive core.
#[derive(Debug, Clone, Copy, PartialEq, Eq, Structural)]
pub enum Error {
    /// A numeric value does not fit the narrower storage type it is written
    /// as; the conversion is range-checked and fails loudly instead of
    /// reinterpreting bits.
    ValueOutOfRange,
}

} // verus!
