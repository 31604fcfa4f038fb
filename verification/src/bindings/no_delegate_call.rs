use vstd::prelude::*;
use crate::primitives::Address;

verus! {

/// A handle on a deployed contract that refuses delegate calls. Its interface has no function.
#[derive(Clone, Copy, Debug, PartialEq, Eq, Structural)]
pub struct NoDelegateCall {
    pub address: Address,
}

impl NoDelegateCall {
    /// A handle on the contract at `address`.
    pub fn new(address: Address) -> (contract: NoDelegateCall)
        ensures
            contract.address == address,
    {
        NoDelegateCall { address }
    }
}

} // verus!
