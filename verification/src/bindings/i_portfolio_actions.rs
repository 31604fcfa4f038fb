use vstd::prelude::*;
use crate::bindings::abi::{
    after_selector, be_value, decode_bytes, decode_words, decoded_bytes, dynamic_bytes,
    encode_bytes, encode_words, lemma_bytes_round_trip, lemma_pow256_values,
    lemma_word_round_trip, pow256, strip_selector, with_selector, word_bytes, words_bytes,
    MAX_BYTES_LEN,
};
use crate::bindings::contract::{AbiError, ContractCall};
use crate::primitives::{two_pow_128, Address, U256};

verus! {

/// A handle on a deployed contract with the portfolio actions interface.
#[derive(Clone, Copy, Debug, PartialEq, Eq, Structural)]
pub struct IPortfolioActions {
    pub address: Address,
}

/// The arguments of `changeParameters(uint64,uint16,uint16,uint16)`, selector `0xaf777855`.
#[derive(Clone, Copy, Debug, Default, PartialEq, Eq, Structural, Hash)]
pub struct ChangeParametersCall {
    pub pool_id: u64,
    pub priority_fee: u16,
    pub fee: u16,
    pub jit: u16,
}

/// The arguments of `claimFee(address,uint256)`, selector `0xdda40797`.
#[derive(Clone, Copy, Debug, Default, PartialEq, Eq, Structural, Hash)]
pub struct ClaimFeeCall {
    pub token: Address,
    pub amount: U256,
}

/// The argument of `multiprocess(bytes)`, selector `0xa0fdf413`.
#[derive(Clone, Debug, Default, PartialEq, Eq, Hash)]
pub struct MultiprocessCall {
    pub data: Vec<u8>,
}

/// The argument of `setProtocolFee(uint256)`, selector `0x787dce3d`.
#[derive(Clone, Copy, Debug, Default, PartialEq, Eq, Structural, Hash)]
pub struct SetProtocolFeeCall {
    pub fee: U256,
}

/// Any call of the contract.
#[derive(Clone, Debug, PartialEq, Eq, Hash)]
pub enum IPortfolioActionsCalls {
    ChangeParameters(ChangeParametersCall),
    ClaimFee(ClaimFeeCall),
    Multiprocess(MultiprocessCall),
    SetProtocolFee(SetProtocolFeeCall),
}

/// The word of `data` with the index `i`, read as a number.
pub open spec fn word_value(data: Seq<u8>, i: int) -> nat {
    be_value(data.subrange(32 * i, 32 * i + 32))
}

impl ChangeParametersCall {
    pub open spec fn selector() -> Seq<u8> {
        seq![175u8, 119u8, 120u8, 85u8]
    }

    /// The call data: the selector, then one word for each argument.
    pub open spec fn encoding(&self) -> Seq<u8> {
        Self::selector() + word_bytes(self.pool_id as nat) + word_bytes(self.priority_fee as nat)
            + word_bytes(self.fee as nat) + word_bytes(self.jit as nat)
    }

    /// What call data stands for: the selector has to lead, four words have to follow, and each
    /// argument is taken from the low bits of its word.
    pub open spec fn decoding(data: Seq<u8>) -> Result<ChangeParametersCall, AbiError> {
        match after_selector(Self::selector(), data) {
            None => Err(AbiError::WrongSelector),
            Some(rest) => if rest.len() < 128 {
                Err(AbiError::DecodingError)
            } else {
                Ok(
                    ChangeParametersCall {
                        pool_id: U256::low_64_of(word_value(rest, 0)),
                        priority_fee: U256::low_16_of(word_value(rest, 1)),
                        fee: U256::low_16_of(word_value(rest, 2)),
                        jit: U256::low_16_of(word_value(rest, 3)),
                    },
                )
            },
        }
    }

    /// Encodes the call.
    pub fn encode(self) -> (data: Vec<u8>)
        ensures
            data@ == self.encoding(),
    {
        let mut words: Vec<U256> = Vec::new();
        words.push(U256::from_u64(self.pool_id));
        words.push(U256::from_u64(self.priority_fee as u64));
        words.push(U256::from_u64(self.fee as u64));
        words.push(U256::from_u64(self.jit as u64));
        let arguments = encode_words(&words);
        proof {
            lemma_words_bytes_four(words@);
        }
        let data = with_selector([175, 119, 120, 85], arguments);
        assert(data@ =~= self.encoding());
        data
    }

    /// Decodes call data.
    pub fn decode(data: &[u8]) -> (result: Result<ChangeParametersCall, AbiError>)
        ensures
            result == Self::decoding(data@),
    {
        let rest = match strip_selector([175, 119, 120, 85], data) {
            Some(rest) => rest,
            None => {
                return Err(AbiError::WrongSelector);
            },
        };
        match decode_words(4, rest) {
            None => Err(AbiError::DecodingError),
            Some(words) => Ok(
                ChangeParametersCall {
                    pool_id: words[0].low_u64(),
                    priority_fee: words[1].low_u16(),
                    fee: words[2].low_u16(),
                    jit: words[3].low_u16(),
                },
            ),
        }
    }
}

impl ClaimFeeCall {
    pub open spec fn selector() -> Seq<u8> {
        seq![221u8, 164u8, 7u8, 151u8]
    }

    /// The call data: the selector, then one word for each argument.
    pub open spec fn encoding(&self) -> Seq<u8> {
        Self::selector() + word_bytes(self.token.value()) + word_bytes(self.amount.value())
    }

    /// What call data stands for: the selector has to lead, two words have to follow, the token
    /// is the low 160 bits of the first and the amount is the second.
    pub open spec fn decoding(data: Seq<u8>) -> Result<ClaimFeeCall, AbiError> {
        match after_selector(Self::selector(), data) {
            None => Err(AbiError::WrongSelector),
            Some(rest) => if rest.len() < 64 {
                Err(AbiError::DecodingError)
            } else {
                Ok(
                    ClaimFeeCall {
                        token: U256::low_address_of(word_value(rest, 0)),
                        amount: U256::of(word_value(rest, 1)),
                    },
                )
            },
        }
    }

    /// Encodes the call.
    pub fn encode(self) -> (data: Vec<u8>)
        ensures
            data@ == self.encoding(),
    {
        let mut words: Vec<U256> = Vec::new();
        words.push(U256::from_address(self.token));
        words.push(self.amount);
        let arguments = encode_words(&words);
        proof {
            lemma_words_bytes_two(words@);
        }
        let data = with_selector([221, 164, 7, 151], arguments);
        assert(data@ =~= self.encoding());
        data
    }

    /// Decodes call data.
    pub fn decode(data: &[u8]) -> (result: Result<ClaimFeeCall, AbiError>)
        ensures
            result == Self::decoding(data@),
    {
        let rest = match strip_selector([221, 164, 7, 151], data) {
            Some(rest) => rest,
            None => {
                return Err(AbiError::WrongSelector);
            },
        };
        match decode_words(2, rest) {
            None => Err(AbiError::DecodingError),
            Some(words) => {
                proof {
                    words[1].lemma_halves();
                }
                Ok(ClaimFeeCall { token: words[0].low_address(), amount: words[1] })
            },
        }
    }
}

impl MultiprocessCall {
    pub open spec fn selector() -> Seq<u8> {
        seq![160u8, 253u8, 244u8, 19u8]
    }

    /// The call data: the selector, then the encoding of the byte string.
    pub open spec fn encoding(&self) -> Seq<u8> {
        Self::selector() + dynamic_bytes(self.data@)
    }

    /// The bytes that call data carries: the selector has to lead, and the rest has to decode
    /// as one byte string.
    pub open spec fn decoding(data: Seq<u8>) -> Result<Seq<u8>, AbiError> {
        match after_selector(Self::selector(), data) {
            None => Err(AbiError::WrongSelector),
            Some(rest) => match decoded_bytes(rest) {
                None => Err(AbiError::DecodingError),
                Some(bytes) => Ok(bytes),
            },
        }
    }

    /// Encodes the call.
    pub fn encode(self) -> (data: Vec<u8>)
        requires
            self.data@.len() <= MAX_BYTES_LEN,
        ensures
            data@ == self.encoding(),
    {
        let arguments = encode_bytes(&self.data);
        with_selector([160, 253, 244, 19], arguments)
    }

    /// Decodes call data. The decoder needs addresses of 64 bits.
    pub fn decode(data: &[u8]) -> (result: Result<MultiprocessCall, AbiError>)
        requires
            usize::BITS == 64,
        ensures
            match result {
                Ok(call) => Self::decoding(data@) == Ok::<Seq<u8>, AbiError>(call.data@),
                Err(error) => Self::decoding(data@) == Err::<Seq<u8>, AbiError>(error),
            },
    {
        let rest = match strip_selector([160, 253, 244, 19], data) {
            Some(rest) => rest,
            None => {
                return Err(AbiError::WrongSelector);
            },
        };
        match decode_bytes(rest) {
            None => Err(AbiError::DecodingError),
            Some(bytes) => Ok(MultiprocessCall { data: bytes }),
        }
    }
}

impl SetProtocolFeeCall {
    pub open spec fn selector() -> Seq<u8> {
        seq![120u8, 125u8, 206u8, 61u8]
    }

    /// The call data: the selector, then the word of the fee.
    pub open spec fn encoding(&self) -> Seq<u8> {
        Self::selector() + word_bytes(self.fee.value())
    }

    /// What call data stands for: the selector has to lead, one word has to follow, and the fee
    /// is that word.
    pub open spec fn decoding(data: Seq<u8>) -> Result<SetProtocolFeeCall, AbiError> {
        match after_selector(Self::selector(), data) {
            None => Err(AbiError::WrongSelector),
            Some(rest) => if rest.len() < 32 {
                Err(AbiError::DecodingError)
            } else {
                Ok(SetProtocolFeeCall { fee: U256::of(word_value(rest, 0)) })
            },
        }
    }

    /// Encodes the call.
    pub fn encode(self) -> (data: Vec<u8>)
        ensures
            data@ == self.encoding(),
    {
        let mut words: Vec<U256> = Vec::new();
        words.push(self.fee);
        let arguments = encode_words(&words);
        proof {
            lemma_words_bytes_one(words@);
        }
        let data = with_selector([120, 125, 206, 61], arguments);
        assert(data@ =~= self.encoding());
        data
    }

    /// Decodes call data.
    pub fn decode(data: &[u8]) -> (result: Result<SetProtocolFeeCall, AbiError>)
        ensures
            result == Self::decoding(data@),
    {
        let rest = match strip_selector([120, 125, 206, 61], data) {
            Some(rest) => rest,
            None => {
                return Err(AbiError::WrongSelector);
            },
        };
        match decode_words(1, rest) {
            None => Err(AbiError::DecodingError),
            Some(words) => {
                proof {
                    words[0].lemma_halves();
                }
                Ok(SetProtocolFeeCall { fee: words[0] })
            },
        }
    }
}

proof fn lemma_words_bytes_one(words: Seq<U256>)
    requires
        words.len() == 1,
    ensures
        words_bytes(words) == word_bytes(words[0].value()),
{
    reveal_with_fuel(words_bytes, 3);
    assert(words.drop_last().len() == 0);
    assert(words_bytes(words) =~= word_bytes(words[0].value()));
}

proof fn lemma_words_bytes_two(words: Seq<U256>)
    requires
        words.len() == 2,
    ensures
        words_bytes(words) == word_bytes(words[0].value()) + word_bytes(words[1].value()),
{
    lemma_words_bytes_one(words.drop_last());
}

proof fn lemma_words_bytes_four(words: Seq<U256>)
    requires
        words.len() == 4,
    ensures
        words_bytes(words) == word_bytes(words[0].value()) + word_bytes(words[1].value())
            + word_bytes(words[2].value()) + word_bytes(words[3].value()),
{
    let three = words.drop_last();
    lemma_words_bytes_two(three.drop_last());
    assert(words_bytes(three) == words_bytes(three.drop_last()) + word_bytes(three.last().value()));
}

/// The call data of a call starts with the selector, and what follows is the rest.
proof fn lemma_after_own_selector(selector: Seq<u8>, arguments: Seq<u8>)
    ensures
        after_selector(selector, selector + arguments) == Some(arguments),
{
    let data = selector + arguments;
    assert(data.subrange(0, selector.len() as int) =~= selector);
    assert(data.subrange(selector.len() as int, data.len() as int) =~= arguments);
}

/// A 256-bit number is below 2^256.
proof fn lemma_u256_fits_a_word(n: U256)
    ensures
        n.value() < pow256(32),
{
    lemma_pow256_values();
    let p = two_pow_128();
    let h = n.high as nat;
    let l = n.low as nat;
    assert(h * p + l < p * p) by (nonlinear_arith)
        requires
            h < p,
            l < p,
    ;
}

/// Decoding the call data of a `changeParameters` call gives the call back.
pub proof fn lemma_change_parameters_round_trip(call: ChangeParametersCall)
    ensures
        ChangeParametersCall::decoding(call.encoding()) == Ok::<ChangeParametersCall, AbiError>(
            call,
        ),
{
    lemma_pow256_values();
    let w0 = word_bytes(call.pool_id as nat);
    let w1 = word_bytes(call.priority_fee as nat);
    let w2 = word_bytes(call.fee as nat);
    let w3 = word_bytes(call.jit as nat);
    lemma_word_round_trip(call.pool_id as nat);
    lemma_word_round_trip(call.priority_fee as nat);
    lemma_word_round_trip(call.fee as nat);
    lemma_word_round_trip(call.jit as nat);
    let rest = w0 + w1 + w2 + w3;
    lemma_after_own_selector(ChangeParametersCall::selector(), rest);
    assert(call.encoding() =~= ChangeParametersCall::selector() + rest);
    assert(rest.subrange(0, 32) =~= w0);
    assert(rest.subrange(32, 64) =~= w1);
    assert(rest.subrange(64, 96) =~= w2);
    assert(rest.subrange(96, 128) =~= w3);
}

/// Decoding the call data of a `claimFee` call gives the call back.
pub proof fn lemma_claim_fee_round_trip(call: ClaimFeeCall)
    ensures
        ClaimFeeCall::decoding(call.encoding()) == Ok::<ClaimFeeCall, AbiError>(call),
{
    let token = U256 { high: call.token.high as u128, low: call.token.low };
    assert(token.value() == call.token.value());
    token.lemma_halves();
    call.amount.lemma_halves();
    lemma_u256_fits_a_word(token);
    lemma_u256_fits_a_word(call.amount);
    let w0 = word_bytes(call.token.value());
    let w1 = word_bytes(call.amount.value());
    lemma_word_round_trip(call.token.value());
    lemma_word_round_trip(call.amount.value());
    let rest = w0 + w1;
    lemma_after_own_selector(ClaimFeeCall::selector(), rest);
    assert(call.encoding() =~= ClaimFeeCall::selector() + rest);
    assert(rest.subrange(0, 32) =~= w0);
    assert(rest.subrange(32, 64) =~= w1);
}

/// Decoding the call data of a `multiprocess` call gives the bytes of the call back.
pub proof fn lemma_multiprocess_round_trip(call: MultiprocessCall)
    requires
        call.data@.len() <= MAX_BYTES_LEN,
    ensures
        MultiprocessCall::decoding(call.encoding()) == Ok::<Seq<u8>, AbiError>(call.data@),
{
    lemma_bytes_round_trip(call.data@);
    lemma_after_own_selector(MultiprocessCall::selector(), dynamic_bytes(call.data@));
}

/// Decoding the call data of a `setProtocolFee` call gives the call back.
pub proof fn lemma_set_protocol_fee_round_trip(call: SetProtocolFeeCall)
    ensures
        SetProtocolFeeCall::decoding(call.encoding()) == Ok::<SetProtocolFeeCall, AbiError>(call),
{
    call.fee.lemma_halves();
    lemma_u256_fits_a_word(call.fee);
    let w0 = word_bytes(call.fee.value());
    lemma_word_round_trip(call.fee.value());
    lemma_after_own_selector(SetProtocolFeeCall::selector(), w0);
    assert(w0.subrange(0, 32) =~= w0);
}

/// Call data is that of at most one kind of call: data that one kind accepts has the selector
/// of that kind, which the other kinds refuse.
pub proof fn lemma_kinds_exclude_each_other(data: Seq<u8>)
    ensures
        ChangeParametersCall::decoding(data) is Ok ==> ClaimFeeCall::decoding(data) is Err
            && MultiprocessCall::decoding(data) is Err && SetProtocolFeeCall::decoding(data) is Err,
        ClaimFeeCall::decoding(data) is Ok ==> MultiprocessCall::decoding(data) is Err
            && SetProtocolFeeCall::decoding(data) is Err,
        MultiprocessCall::decoding(data) is Ok ==> SetProtocolFeeCall::decoding(data) is Err,
{
    if data.len() >= 4 {
        let head = data.subrange(0, 4);
        assert(head[0] == data[0]);
        assert(ChangeParametersCall::selector()[0] == 175u8);
        assert(ClaimFeeCall::selector()[0] == 221u8);
        assert(MultiprocessCall::selector()[0] == 160u8);
        assert(SetProtocolFeeCall::selector()[0] == 120u8);
    }
}

impl IPortfolioActionsCalls {
    /// The call data of the call.
    pub open spec fn encoding(&self) -> Seq<u8> {
        match self {
            IPortfolioActionsCalls::ChangeParameters(call) => call.encoding(),
            IPortfolioActionsCalls::ClaimFee(call) => call.encoding(),
            IPortfolioActionsCalls::Multiprocess(call) => call.encoding(),
            IPortfolioActionsCalls::SetProtocolFee(call) => call.encoding(),
        }
    }

    /// Encodes the call as the call of its kind.
    pub fn encode(self) -> (data: Vec<u8>)
        requires
            self matches IPortfolioActionsCalls::Multiprocess(call) ==> call.data@.len()
                <= MAX_BYTES_LEN,
        ensures
            data@ == self.encoding(),
    {
        match self {
            IPortfolioActionsCalls::ChangeParameters(call) => call.encode(),
            IPortfolioActionsCalls::ClaimFee(call) => call.encode(),
            IPortfolioActionsCalls::Multiprocess(call) => call.encode(),
            IPortfolioActionsCalls::SetProtocolFee(call) => call.encode(),
        }
    }

    /// Decodes call data as the first kind of call, in the order of declaration, as which it can
    /// be decoded; it is a decoding error where there is none. The decoder needs addresses of 64
    /// bits.
    pub fn decode(data: &[u8]) -> (result: Result<IPortfolioActionsCalls, AbiError>)
        requires
            usize::BITS == 64,
        ensures
            match result {
                Ok(IPortfolioActionsCalls::ChangeParameters(call)) => ChangeParametersCall::decoding(
                    data@,
                ) == Ok::<ChangeParametersCall, AbiError>(call),
                Ok(IPortfolioActionsCalls::ClaimFee(call)) => {
                    &&& ChangeParametersCall::decoding(data@) is Err
                    &&& ClaimFeeCall::decoding(data@) == Ok::<ClaimFeeCall, AbiError>(call)
                },
                Ok(IPortfolioActionsCalls::Multiprocess(call)) => {
                    &&& ChangeParametersCall::decoding(data@) is Err
                    &&& ClaimFeeCall::decoding(data@) is Err
                    &&& MultiprocessCall::decoding(data@) == Ok::<Seq<u8>, AbiError>(call.data@)
                },
                Ok(IPortfolioActionsCalls::SetProtocolFee(call)) => {
                    &&& ChangeParametersCall::decoding(data@) is Err
                    &&& ClaimFeeCall::decoding(data@) is Err
                    &&& MultiprocessCall::decoding(data@) is Err
                    &&& SetProtocolFeeCall::decoding(data@) == Ok::<SetProtocolFeeCall, AbiError>(
                        call,
                    )
                },
                Err(error) => {
                    &&& error == AbiError::DecodingError
                    &&& ChangeParametersCall::decoding(data@) is Err
                    &&& ClaimFeeCall::decoding(data@) is Err
                    &&& MultiprocessCall::decoding(data@) is Err
                    &&& SetProtocolFeeCall::decoding(data@) is Err
                },
            },
    {
        if let Ok(decoded) = ChangeParametersCall::decode(data) {
            return Ok(IPortfolioActionsCalls::ChangeParameters(decoded));
        }
        if let Ok(decoded) = ClaimFeeCall::decode(data) {
            return Ok(IPortfolioActionsCalls::ClaimFee(decoded));
        }
        if let Ok(decoded) = MultiprocessCall::decode(data) {
            return Ok(IPortfolioActionsCalls::Multiprocess(decoded));
        }
        if let Ok(decoded) = SetProtocolFeeCall::decode(data) {
            return Ok(IPortfolioActionsCalls::SetProtocolFee(decoded));
        }
        Err(AbiError::DecodingError)
    }
}

impl IPortfolioActions {
    /// A handle on the contract at `address`.
    pub fn new(address: Address) -> (contract: IPortfolioActions)
        ensures
            contract.address == address,
    {
        IPortfolioActions { address }
    }

    /// Calls the contract's `changeParameters` (0xaf777855) function.
    pub fn change_parameters(&self, pool_id: u64, priority_fee: u16, fee: u16, jit: u16) -> (call:
        ContractCall)
        ensures
            call.to == self.address,
            call.data@ == (ChangeParametersCall { pool_id, priority_fee, fee, jit }).encoding(),
    {
        let data = (ChangeParametersCall { pool_id, priority_fee, fee, jit }).encode();
        ContractCall { to: self.address, data }
    }

    /// Calls the contract's `claimFee` (0xdda40797) function.
    pub fn claim_fee(&self, token: Address, amount: U256) -> (call: ContractCall)
        ensures
            call.to == self.address,
            call.data@ == (ClaimFeeCall { token, amount }).encoding(),
    {
        let data = (ClaimFeeCall { token, amount }).encode();
        ContractCall { to: self.address, data }
    }

    /// Calls the contract's `multiprocess` (0xa0fdf413) function.
    pub fn multiprocess(&self, data: Vec<u8>) -> (call: ContractCall)
        requires
            data@.len() <= MAX_BYTES_LEN,
        ensures
            call.to == self.address,
            call.data@ == (MultiprocessCall { data }).encoding(),
    {
        let data = (MultiprocessCall { data }).encode();
        ContractCall { to: self.address, data }
    }

    /// Calls the contract's `setProtocolFee` (0x787dce3d) function.
    pub fn set_protocol_fee(&self, fee: U256) -> (call: ContractCall)
        ensures
            call.to == self.address,
            call.data@ == (SetProtocolFeeCall { fee }).encoding(),
    {
        let data = (SetProtocolFeeCall { fee }).encode();
        ContractCall { to: self.address, data }
    }
}

} // verus!
