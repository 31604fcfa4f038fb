use vstd::prelude::*;
use crate::bindings::contract::{ContractDeployer, ContractError, Token};
use crate::primitives::Address;

verus! {

/// A handle on a deployed copy of the safe-cast library.
#[derive(Clone, Copy, Debug, PartialEq, Eq, Structural)]
pub struct SafeCastLib {
    pub address: Address,
}

/// The init code of the contract.
pub open spec fn bytecode() -> Seq<u8> {
    seq![
        96u8, 86, 96, 55, 96, 11, 130, 130, 130, 57, 128, 81, 96, 0, 26, 96, 115, 20, 96, 42,
        87, 99, 78, 72, 123, 113, 96, 224, 27, 96, 0, 82, 96, 0, 96, 4, 82, 96, 36, 96, 0, 253,
        91, 48, 96, 0, 82, 96, 115, 129, 83, 130, 129, 243, 254, 115, 0, 0, 0, 0, 0, 0, 0, 0,
        0, 0, 0, 0, 0, 0, 0, 0, 0, 0, 0, 0, 48, 20, 96, 128, 96, 64, 82, 96, 0, 128, 253, 254,
        162, 100, 105, 112, 102, 115, 88, 34, 18, 32, 69, 192, 53, 228, 52, 233, 6, 121, 97,
        148, 2, 38, 196, 78, 30, 116, 75, 136, 215, 100, 100, 101, 29, 174, 246, 249, 24, 170,
        167, 119, 187, 30, 100, 115, 111, 108, 99, 67, 0, 8, 13, 0, 51,
    ]
}

/// The code of the contract once it is deployed.
pub open spec fn deployed_bytecode() -> Seq<u8> {
    seq![
        115u8, 0, 0, 0, 0, 0, 0, 0, 0, 0, 0, 0, 0, 0, 0, 0, 0, 0, 0, 0, 0, 48, 20, 96, 128, 96,
        64, 82, 96, 0, 128, 253, 254, 162, 100, 105, 112, 102, 115, 88, 34, 18, 32, 69, 192,
        53, 228, 52, 233, 6, 121, 97, 148, 2, 38, 196, 78, 30, 116, 75, 136, 215, 100, 100,
        101, 29, 174, 246, 249, 24, 170, 167, 119, 187, 30, 100, 115, 111, 108, 99, 67, 0, 8,
        13, 0, 51,
    ]
}

/// The init code of the contract.
pub fn safecastlib_bytecode() -> (code: Vec<u8>)
    ensures
        code@ == bytecode(),
{
    let code: Vec<u8> = vec![
        96u8, 86, 96, 55, 96, 11, 130, 130, 130, 57, 128, 81, 96, 0, 26, 96, 115, 20, 96, 42,
        87, 99, 78, 72, 123, 113, 96, 224, 27, 96, 0, 82, 96, 0, 96, 4, 82, 96, 36, 96, 0, 253,
        91, 48, 96, 0, 82, 96, 115, 129, 83, 130, 129, 243, 254, 115, 0, 0, 0, 0, 0, 0, 0, 0,
        0, 0, 0, 0, 0, 0, 0, 0, 0, 0, 0, 0, 48, 20, 96, 128, 96, 64, 82, 96, 0, 128, 253, 254,
        162, 100, 105, 112, 102, 115, 88, 34, 18, 32, 69, 192, 53, 228, 52, 233, 6, 121, 97,
        148, 2, 38, 196, 78, 30, 116, 75, 136, 215, 100, 100, 101, 29, 174, 246, 249, 24, 170,
        167, 119, 187, 30, 100, 115, 111, 108, 99, 67, 0, 8, 13, 0, 51,
    ];
    assert(code@ =~= bytecode());
    code
}

/// The code of the contract once it is deployed.
pub fn safecastlib_deployed_bytecode() -> (code: Vec<u8>)
    ensures
        code@ == deployed_bytecode(),
{
    let code: Vec<u8> = vec![
        115u8, 0, 0, 0, 0, 0, 0, 0, 0, 0, 0, 0, 0, 0, 0, 0, 0, 0, 0, 0, 0, 48, 20, 96, 128, 96,
        64, 82, 96, 0, 128, 253, 254, 162, 100, 105, 112, 102, 115, 88, 34, 18, 32, 69, 192,
        53, 228, 52, 233, 6, 121, 97, 148, 2, 38, 196, 78, 30, 116, 75, 136, 215, 100, 100,
        101, 29, 174, 246, 249, 24, 170, 167, 119, 187, 30, 100, 115, 111, 108, 99, 67, 0, 8,
        13, 0, 51,
    ];
    assert(code@ =~= deployed_bytecode());
    code
}

impl SafeCastLib {
    /// A handle on the contract at `address`.
    pub fn new(address: Address) -> (contract: SafeCastLib)
        ensures
            contract.address == address,
    {
        SafeCastLib { address }
    }

    /// Prepares the deployment of the contract. The contract has no constructor: with no
    /// argument the deployment carries the init code as it is, and with any argument it is
    /// refused.
    pub fn deploy(constructor_args: Vec<Token>) -> (result: Result<ContractDeployer, ContractError>)
        ensures
            match result {
                Ok(deployer) => constructor_args@.len() == 0 && deployer.data@ == bytecode(),
                Err(error) => constructor_args@.len() != 0 && error
                    == ContractError::ConstructorError,
            },
    {
        if constructor_args.len() != 0 {
            return Err(ContractError::ConstructorError);
        }
        Ok(ContractDeployer { data: safecastlib_bytecode() })
    }
}

} // verus!
