use vstd::prelude::*;
use crate::primitives::Address;

verus! {

/// A call of a contract that is ready to be sent: the contract's address and the call data.
#[derive(Clone, Debug, PartialEq, Eq)]
pub struct ContractCall {
    pub to: Address,
    pub data: Vec<u8>,
}

/// A deployment that is ready to be sent: the init code of the contract.
#[derive(Clone, Debug, PartialEq, Eq)]
pub struct ContractDeployer {
    pub data: Vec<u8>,
}

/// Why call data could not be read.
#[derive(Clone, Copy, Debug, PartialEq, Eq, Structural)]
pub enum AbiError {
    /// The data after the selector is no encoding of the arguments.
    DecodingError,
    /// The data does not start with the expected selector.
    WrongSelector,
}

/// Why a deployment could not be made.
#[derive(Clone, Copy, Debug, PartialEq, Eq, Structural)]
pub enum ContractError {
    /// Arguments were given for a constructor that takes none.
    ConstructorError,
}

/// An argument of a constructor: a static value of one word, or a dynamic byte string.
#[derive(Clone, Debug, PartialEq, Eq)]
pub enum Token {
    Word(crate::primitives::U256),
    Bytes(Vec<u8>),
}

} // verus!
