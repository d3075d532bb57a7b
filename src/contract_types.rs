//! Handles that contract code receives from its host.
use vstd::prelude::*;

verus! {

/// The contract's state bytes, read and written through a position.
#[derive(Default)]
pub struct ContractState {
    pub(crate) current_position: u32,
}

/// The parameter passed to an init or receive method.
#[derive(Default)]
pub struct Parameter {
    pub(crate) current_position: u32,
}

/// The logger of a contract invocation.
#[derive(Default)]
pub struct Logger {
    pub(crate) _private: (),
}

/// An action that a contract execution ends with. It cannot be cloned, so
/// that combining actions is explicit; it is `must_use` since the functions
/// that produce one have effects.
#[must_use]
pub struct Action {
    pub(crate) _private: u32,
}

impl Action {
    /// The host's handle for this action.
    pub closed spec fn spec_tag(&self) -> u32 {
        self._private
    }

    /// The host's handle for this action.
    pub fn tag(&self) -> (r: u32)
        ensures
            r == self.spec_tag(),
    {
        self._private
    }
}

/// A rejection of a contract invocation, with no further detail.
#[derive(Default, PartialEq, Eq, Structural)]
pub struct Reject {}

/// What an init method returns: the state, or a rejection.
pub type InitResult<S> = Result<S, Reject>;

/// What a receive method returns.
pub type ReceiveResult<A> = Result<A, Reject>;

/// The host's context of an init call.
pub struct InitContextExtern {}

/// The host's context of a receive call.
pub struct ReceiveContextExtern {}

/// The host's chain metadata.
pub struct ChainMetaExtern {}

} // verus!
