use vstd::prelude::*;
use crate::primitives::Address;

verus! {

/// A handle on a deployed copy of the FVM library. The library's interface has no function.
#[derive(Clone, Copy, Debug, PartialEq, Eq, Structural)]
pub struct FVMLib {
    pub address: Address,
}

impl FVMLib {
    /// A handle on the contract at `address`.
    pub fn new(address: Address) -> (contract: FVMLib)
        ensures
            contract.address == address,
    {
        FVMLib { address }
    }
}

} // verus!
