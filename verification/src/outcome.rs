use vstd::prelude::*;
use vstd::string::*;
use crate::primitives::{Address, Log};

verus! {

/// Why an execution ended without a fault.
#[derive(Clone, Copy, Debug, PartialEq, Eq, Structural)]
pub enum Eval {
    Stop,
    Return,
    SelfDestruct,
}

/// Why an execution ran out of gas.
#[derive(Clone, Copy, Debug, PartialEq, Eq, Structural)]
pub enum OutOfGasError {
    BasicOutOfGas,
    MemoryLimit,
    Memory,
    Precompile,
    InvalidOperand,
}

/// The fault for which the backend aborted an execution.
#[derive(Clone, Copy, Debug, PartialEq, Eq, Structural)]
pub enum Halt {
    OutOfGas(OutOfGasError),
    OpcodeNotFound,
    InvalidFEOpcode,
    InvalidJump,
    NotActivated,
    StackUnderflow,
    StackOverflow,
    OutOfOffset,
    CreateCollision,
    PrecompileError,
    NonceOverflow,
    CreateContractSizeLimit,
    CreateContractStartingWithEF,
    CreateInitcodeSizeLimit,
    OverflowPayment,
    StateChangeDuringStaticCall,
    CallNotAllowedInsideStatic,
    OutOfFund,
    CallTooDeep,
}

/// What a successful execution returned: the data of a call, or the data of a contract creation
/// with the address of the contract, if one was made.
#[derive(Clone, Debug, PartialEq, Eq)]
pub enum Output {
    Call(Vec<u8>),
    Create(Vec<u8>, Option<Address>),
}

/// The outcome of one transaction as the backend reports it.
#[derive(Clone, Debug, PartialEq, Eq)]
#[allow(inconsistent_fields)]
pub enum ExecutionResult {
    Success { reason: Eval, gas_used: u64, gas_refunded: u64, logs: Vec<Log>, output: Output },
    Revert { gas_used: u64, output: Vec<u8> },
    Halt { reason: Halt, gas_used: u64 },
}

impl Output {
    /// The returned data, whichever kind of transaction returned it.
    pub open spec fn data(&self) -> Vec<u8> {
        match self {
            Output::Call(data) => *data,
            Output::Create(data, _) => *data,
        }
    }

    /// Gives the returned data and drops the address of a created contract.
    pub fn into_data(self) -> (data: Vec<u8>)
        ensures
            data == self.data(),
    {
        match self {
            Output::Call(data) => data,
            Output::Create(data, _) => data,
        }
    }
}

/// The name of an out-of-gas cause.
pub open spec fn out_of_gas_text(cause: OutOfGasError) -> Seq<char> {
    match cause {
        OutOfGasError::BasicOutOfGas => "BasicOutOfGas"@,
        OutOfGasError::MemoryLimit => "MemoryLimit"@,
        OutOfGasError::Memory => "Memory"@,
        OutOfGasError::Precompile => "Precompile"@,
        OutOfGasError::InvalidOperand => "InvalidOperand"@,
    }
}

/// A halt reason as it is written in messages: the reason's name, and for an out-of-gas halt the
/// cause in brackets on a line of its own.
pub open spec fn halt_text(reason: Halt) -> Seq<char> {
    match reason {
        Halt::OutOfGas(cause) => "OutOfGas(\n    "@ + out_of_gas_text(cause) + ",\n)"@,
        Halt::OpcodeNotFound => "OpcodeNotFound"@,
        Halt::InvalidFEOpcode => "InvalidFEOpcode"@,
        Halt::InvalidJump => "InvalidJump"@,
        Halt::NotActivated => "NotActivated"@,
        Halt::StackUnderflow => "StackUnderflow"@,
        Halt::StackOverflow => "StackOverflow"@,
        Halt::OutOfOffset => "OutOfOffset"@,
        Halt::CreateCollision => "CreateCollision"@,
        Halt::PrecompileError => "PrecompileError"@,
        Halt::NonceOverflow => "NonceOverflow"@,
        Halt::CreateContractSizeLimit => "CreateContractSizeLimit"@,
        Halt::CreateContractStartingWithEF => "CreateContractStartingWithEF"@,
        Halt::CreateInitcodeSizeLimit => "CreateInitcodeSizeLimit"@,
        Halt::OverflowPayment => "OverflowPayment"@,
        Halt::StateChangeDuringStaticCall => "StateChangeDuringStaticCall"@,
        Halt::CallNotAllowedInsideStatic => "CallNotAllowedInsideStatic"@,
        Halt::OutOfFund => "OutOfFund"@,
        Halt::CallTooDeep => "CallTooDeep"@,
    }
}

impl OutOfGasError {
    /// The name of the cause.
    pub fn name(&self) -> (name: &'static str)
        ensures
            name@ == out_of_gas_text(*self),
    {
        match self {
            OutOfGasError::BasicOutOfGas => "BasicOutOfGas",
            OutOfGasError::MemoryLimit => "MemoryLimit",
            OutOfGasError::Memory => "Memory",
            OutOfGasError::Precompile => "Precompile",
            OutOfGasError::InvalidOperand => "InvalidOperand",
        }
    }
}

impl Halt {
    /// Appends the reason, as messages write it, to `text`.
    pub fn append_to(&self, text: &mut String)
        ensures
            final(text)@ == old(text)@ + halt_text(*self),
    {
        match self {
            Halt::OutOfGas(cause) => {
                text.append("OutOfGas(\n    ");
                text.append(cause.name());
                text.append(",\n)");
                assert(text@ =~= old(text)@ + halt_text(*self));
            },
            Halt::OpcodeNotFound => text.append("OpcodeNotFound"),
            Halt::InvalidFEOpcode => text.append("InvalidFEOpcode"),
            Halt::InvalidJump => text.append("InvalidJump"),
            Halt::NotActivated => text.append("NotActivated"),
            Halt::StackUnderflow => text.append("StackUnderflow"),
            Halt::StackOverflow => text.append("StackOverflow"),
            Halt::OutOfOffset => text.append("OutOfOffset"),
            Halt::CreateCollision => text.append("CreateCollision"),
            Halt::PrecompileError => text.append("PrecompileError"),
            Halt::NonceOverflow => text.append("NonceOverflow"),
            Halt::CreateContractSizeLimit => text.append("CreateContractSizeLimit"),
            Halt::CreateContractStartingWithEF => text.append("CreateContractStartingWithEF"),
            Halt::CreateInitcodeSizeLimit => text.append("CreateInitcodeSizeLimit"),
            Halt::OverflowPayment => text.append("OverflowPayment"),
            Halt::StateChangeDuringStaticCall => text.append("StateChangeDuringStaticCall"),
            Halt::CallNotAllowedInsideStatic => text.append("CallNotAllowedInsideStatic"),
            Halt::OutOfFund => text.append("OutOfFund"),
            Halt::CallTooDeep => text.append("CallTooDeep"),
        }
    }
}

/// The character for the hexadecimal digit `d`, in lower case.
pub open spec fn hex_digit_char(d: int) -> char {
    if d == 0 {
        '0'
    } else if d == 1 {
        '1'
    } else if d == 2 {
        '2'
    } else if d == 3 {
        '3'
    } else if d == 4 {
        '4'
    } else if d == 5 {
        '5'
    } else if d == 6 {
        '6'
    } else if d == 7 {
        '7'
    } else if d == 8 {
        '8'
    } else if d == 9 {
        '9'
    } else if d == 10 {
        'a'
    } else if d == 11 {
        'b'
    } else if d == 12 {
        'c'
    } else if d == 13 {
        'd'
    } else if d == 14 {
        'e'
    } else {
        'f'
    }
}

/// One byte as a byte-string literal writes it: the short escapes for line feed, carriage
/// return, tab, backslash, double quote and zero, the character itself for the other printable
/// ASCII bytes, and `\x` with two hexadecimal digits for the rest.
pub open spec fn escaped_byte(b: u8) -> Seq<char> {
    if b == 0x0a {
        seq!['\\', 'n']
    } else if b == 0x0d {
        seq!['\\', 'r']
    } else if b == 0x09 {
        seq!['\\', 't']
    } else if b == 0x5c || b == 0x22 {
        seq!['\\', b as char]
    } else if b == 0 {
        seq!['\\', '0']
    } else if 0x20 <= b && b < 0x7f {
        seq![b as char]
    } else {
        seq!['\\', 'x', hex_digit_char(b as int / 16), hex_digit_char(b as int % 16)]
    }
}

/// The bytes of `payload`, each escaped, one after the other.
pub open spec fn escaped_bytes(payload: Seq<u8>) -> Seq<char>
    decreases payload.len(),
{
    if payload.len() == 0 {
        Seq::empty()
    } else {
        escaped_bytes(payload.drop_last()) + escaped_byte(payload.last())
    }
}

/// A payload as messages write it: a byte-string literal, `b"` followed by the escaped bytes and
/// a closing double quote.
pub open spec fn payload_text(payload: Seq<u8>) -> Seq<char> {
    seq!['b', '"'] + escaped_bytes(payload) + seq!['"']
}

/// Formats the payload with the `Debug` impl of `bytes::Bytes`, which writes a byte-string
/// literal: `b"`, every byte escaped as `escaped_byte` says, and `"`.
#[verifier::external_body]
pub(crate) fn debug_payload(payload: &Vec<u8>) -> (text: String)
    ensures
        text@ == payload_text(payload@),
{
    format!("{:#?}", bytes::Bytes::copy_from_slice(payload))
}

} // verus!
