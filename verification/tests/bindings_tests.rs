use arbiter::bindings::abi::{strip_selector, with_selector};
use arbiter::bindings::contract::{AbiError, ContractError, Token};
use arbiter::bindings::fvm_lib::FVMLib;
use arbiter::bindings::i_portfolio_actions::{
    ChangeParametersCall, ClaimFeeCall, IPortfolioActions, IPortfolioActionsCalls,
    MultiprocessCall, SetProtocolFeeCall,
};
use arbiter::bindings::no_delegate_call::NoDelegateCall;
use arbiter::bindings::safe_cast_lib::{
    safecastlib_bytecode, safecastlib_deployed_bytecode, SafeCastLib,
};
use arbiter::primitives::{Address, U256};
use ethers_core::abi::Token as EthToken;

fn selector_of(signature: &str) -> Vec<u8> {
    ethers_core::utils::id(signature).to_vec()
}

fn word(n: u128) -> Vec<u8> {
    let mut bytes = vec![0u8; 16];
    bytes.extend_from_slice(&n.to_be_bytes());
    bytes
}

fn sample_token() -> Address {
    Address { high: 0x1122_3344, low: 0x5566_7788_99aa_bbcc_ddee_ff00_0102_0304 }
}

fn sample_amount() -> U256 {
    U256 { high: 0x0f0e_0d0c_0b0a_0908_0706_0504_0302_0100, low: u128::MAX - 5 }
}

#[test]
fn change_parameters_call_data() {
    let call = ChangeParametersCall { pool_id: u64::MAX - 1, priority_fee: 1, fee: 0x0203, jit: u16::MAX };
    let mut expected = vec![175, 119, 120, 85];
    expected.extend(word((u64::MAX - 1) as u128));
    expected.extend(word(1));
    expected.extend(word(0x0203));
    expected.extend(word(0xffff));
    assert_eq!(call.encode(), expected);
    assert_eq!(expected.len(), 4 + 128);

    let mut by_ethers = selector_of("changeParameters(uint64,uint16,uint16,uint16)");
    by_ethers.extend(ethers_core::abi::encode(&[
        EthToken::Uint((u64::MAX - 1).into()),
        EthToken::Uint(1u16.into()),
        EthToken::Uint(0x0203u16.into()),
        EthToken::Uint(u16::MAX.into()),
    ]));
    assert_eq!(call.encode(), by_ethers);

    assert_eq!(ChangeParametersCall::decode(&expected), Ok(call));
    let contract = IPortfolioActions::new(Address::from_low_u64_be(0x99));
    let prepared = contract.change_parameters(u64::MAX - 1, 1, 0x0203, u16::MAX);
    assert_eq!(prepared.to, Address::from_low_u64_be(0x99));
    assert_eq!(prepared.data, expected);
}

#[test]
fn change_parameters_decoding_takes_the_low_bits() {
    let mut data = vec![175, 119, 120, 85];
    data.extend(vec![0xffu8; 32]);
    data.extend(vec![0xabu8; 32]);
    data.extend(word(0x1_0005));
    data.extend(word(0));
    data.extend(vec![1, 2, 3]);
    assert_eq!(
        ChangeParametersCall::decode(&data),
        Ok(ChangeParametersCall { pool_id: u64::MAX, priority_fee: 0xabab, fee: 5, jit: 0 })
    );
}

#[test]
fn change_parameters_decoding_errors() {
    assert_eq!(ChangeParametersCall::decode(&[]), Err(AbiError::WrongSelector));
    assert_eq!(ChangeParametersCall::decode(&[175, 119, 120]), Err(AbiError::WrongSelector));
    assert_eq!(ChangeParametersCall::decode(&[175, 119, 120, 86]), Err(AbiError::WrongSelector));
    assert_eq!(ChangeParametersCall::decode(&[175, 119, 120, 85]), Err(AbiError::DecodingError));
    let mut short = vec![175, 119, 120, 85];
    short.extend(vec![0u8; 127]);
    assert_eq!(ChangeParametersCall::decode(&short), Err(AbiError::DecodingError));
    short.push(0);
    assert_eq!(ChangeParametersCall::decode(&short), Ok(ChangeParametersCall::default()));
}

#[test]
fn claim_fee_call_data() {
    let call = ClaimFeeCall { token: sample_token(), amount: sample_amount() };
    let mut expected = vec![221, 164, 7, 151];
    expected.extend(vec![0u8; 12]);
    expected.extend(0x1122_3344u32.to_be_bytes());
    expected.extend(0x5566_7788_99aa_bbcc_ddee_ff00_0102_0304u128.to_be_bytes());
    expected.extend(0x0f0e_0d0c_0b0a_0908_0706_0504_0302_0100u128.to_be_bytes());
    expected.extend((u128::MAX - 5).to_be_bytes());
    assert_eq!(call.encode(), expected);

    let mut by_ethers = selector_of("claimFee(address,uint256)");
    by_ethers.extend(ethers_core::abi::encode(&[
        EthToken::Address(ethers_core::types::H160::from_slice(&expected[16..36])),
        EthToken::Uint(ethers_core::types::U256::from_big_endian(&expected[36..68])),
    ]));
    assert_eq!(call.encode(), by_ethers);

    assert_eq!(ClaimFeeCall::decode(&expected), Ok(call));
    let contract = IPortfolioActions::new(Address::zero());
    assert_eq!(contract.claim_fee(sample_token(), sample_amount()).data, expected);
    assert_eq!(contract.claim_fee(sample_token(), sample_amount()).to, Address::zero());
}

#[test]
fn claim_fee_decoding_drops_the_bits_above_the_address() {
    let mut data = vec![221, 164, 7, 151];
    data.extend(vec![0xffu8; 32]);
    data.extend(word(3));
    assert_eq!(
        ClaimFeeCall::decode(&data),
        Ok(ClaimFeeCall {
            token: Address { high: u32::MAX, low: u128::MAX },
            amount: U256 { high: 0, low: 3 },
        })
    );
    data.truncate(4 + 63);
    assert_eq!(ClaimFeeCall::decode(&data), Err(AbiError::DecodingError));
    assert_eq!(ClaimFeeCall::decode(&[1, 2, 3, 4, 5]), Err(AbiError::WrongSelector));
}

#[test]
fn multiprocess_call_data() {
    let call = MultiprocessCall { data: vec![0xaa, 0xbb, 0xcc] };
    let mut expected = vec![160, 253, 244, 19];
    expected.extend(word(32));
    expected.extend(word(3));
    expected.extend(vec![0xaa, 0xbb, 0xcc]);
    expected.extend(vec![0u8; 29]);
    assert_eq!(call.clone().encode(), expected);

    let mut by_ethers = selector_of("multiprocess(bytes)");
    by_ethers.extend(ethers_core::abi::encode(&[EthToken::Bytes(vec![0xaa, 0xbb, 0xcc])]));
    assert_eq!(call.clone().encode(), by_ethers);

    assert_eq!(MultiprocessCall::decode(&expected), Ok(call));
    let contract = IPortfolioActions::new(Address::from_low_u64_be(4));
    let prepared = contract.multiprocess(vec![0xaa, 0xbb, 0xcc]);
    assert_eq!(prepared.data, expected);
    assert_eq!(prepared.to, Address::from_low_u64_be(4));
}

#[test]
fn multiprocess_call_data_of_whole_words_and_of_nothing() {
    let whole = MultiprocessCall { data: vec![7u8; 64] };
    let mut expected = vec![160, 253, 244, 19];
    expected.extend(word(32));
    expected.extend(word(64));
    expected.extend(vec![7u8; 64]);
    assert_eq!(whole.clone().encode(), expected);
    assert_eq!(MultiprocessCall::decode(&expected), Ok(whole));

    let empty = MultiprocessCall { data: vec![] };
    let mut expected = vec![160, 253, 244, 19];
    expected.extend(word(32));
    expected.extend(word(0));
    assert_eq!(empty.clone().encode(), expected);
    assert_eq!(MultiprocessCall::decode(&expected), Ok(empty));
}

#[test]
fn multiprocess_decoding_follows_the_offset() {
    let mut data = vec![160, 253, 244, 19];
    data.extend(word(64));
    data.extend(vec![0xeeu8; 32]);
    data.extend(word(2));
    data.extend(vec![5, 6, 9, 9]);
    assert_eq!(MultiprocessCall::decode(&data), Ok(MultiprocessCall { data: vec![5, 6] }));
}

#[test]
fn multiprocess_decoding_errors() {
    assert_eq!(MultiprocessCall::decode(&[160, 253, 244, 18]), Err(AbiError::WrongSelector));
    assert_eq!(MultiprocessCall::decode(&[160, 253, 244, 19]), Err(AbiError::DecodingError));
    // the bytes reach beyond the data
    let mut data = vec![160, 253, 244, 19];
    data.extend(word(32));
    data.extend(word(4));
    data.extend(vec![1, 2, 3]);
    assert_eq!(MultiprocessCall::decode(&data), Err(AbiError::DecodingError));
    // an offset of 2^32 or more
    let mut data = vec![160, 253, 244, 19];
    data.extend(word(1 << 32));
    data.extend(word(0));
    assert_eq!(MultiprocessCall::decode(&data), Err(AbiError::DecodingError));
    // an offset beyond the data
    let mut data = vec![160, 253, 244, 19];
    data.extend(word(33));
    data.extend(word(0));
    assert_eq!(MultiprocessCall::decode(&data), Err(AbiError::DecodingError));
}

#[test]
fn set_protocol_fee_call_data() {
    let call = SetProtocolFeeCall { fee: sample_amount() };
    let mut expected = vec![120, 125, 206, 61];
    expected.extend(0x0f0e_0d0c_0b0a_0908_0706_0504_0302_0100u128.to_be_bytes());
    expected.extend((u128::MAX - 5).to_be_bytes());
    assert_eq!(call.encode(), expected);
    assert_eq!(&expected[..4], &selector_of("setProtocolFee(uint256)")[..]);
    assert_eq!(SetProtocolFeeCall::decode(&expected), Ok(call));
    assert_eq!(SetProtocolFeeCall::decode(&expected[..35]), Err(AbiError::DecodingError));
    assert_eq!(SetProtocolFeeCall::decode(&expected[1..]), Err(AbiError::WrongSelector));
    let contract = IPortfolioActions::new(Address::from_low_u64_be(4));
    assert_eq!(contract.set_protocol_fee(sample_amount()).data, expected);
}

#[test]
fn any_call_is_decoded_as_its_own_kind() {
    let calls = vec![
        IPortfolioActionsCalls::ChangeParameters(ChangeParametersCall {
            pool_id: 1,
            priority_fee: 2,
            fee: 3,
            jit: 4,
        }),
        IPortfolioActionsCalls::ClaimFee(ClaimFeeCall {
            token: sample_token(),
            amount: sample_amount(),
        }),
        IPortfolioActionsCalls::Multiprocess(MultiprocessCall { data: vec![1; 40] }),
        IPortfolioActionsCalls::SetProtocolFee(SetProtocolFeeCall { fee: U256::from_u64(88) }),
    ];
    for call in calls {
        let data = call.clone().encode();
        assert_eq!(IPortfolioActionsCalls::decode(&data), Ok(call));
    }
    assert_eq!(IPortfolioActionsCalls::decode(&[]), Err(AbiError::DecodingError));
    assert_eq!(IPortfolioActionsCalls::decode(&[0, 0, 0, 0, 1]), Err(AbiError::DecodingError));
    assert_eq!(
        IPortfolioActionsCalls::decode(&[120, 125, 206, 61, 0]),
        Err(AbiError::DecodingError)
    );
}

#[test]
fn selectors_are_split_off_and_put_in_front() {
    assert_eq!(with_selector([1, 2, 3, 4], vec![5, 6]), vec![1, 2, 3, 4, 5, 6]);
    assert_eq!(strip_selector([1, 2, 3, 4], &[1, 2, 3, 4, 5, 6]), Some(&[5u8, 6][..]));
    assert_eq!(strip_selector([1, 2, 3, 4], &[1, 2, 3, 4]), Some(&[][..]));
    assert_eq!(strip_selector([1, 2, 3, 4], &[1, 2, 3]), None);
    assert_eq!(strip_selector([1, 2, 3, 4], &[1, 2, 3, 5, 4]), None);
}

#[test]
fn u256_narrowing() {
    let n = U256 { high: 0xaaaa_bbbb_cccc_dddd_eeee_ffff_1111_2222, low: 0x3333_4444_5555_6666_7777_8888_9999_abcd };
    assert_eq!(n.low_u64(), 0x7777_8888_9999_abcd);
    assert_eq!(n.low_u16(), 0xabcd);
    assert_eq!(
        n.low_address(),
        Address { high: 0x1111_2222, low: 0x3333_4444_5555_6666_7777_8888_9999_abcd }
    );
    assert_eq!(U256::from_address(sample_token()).low_address(), sample_token());
    assert_eq!(U256::from_u64(5), U256 { high: 0, low: 5 });
}

#[test]
fn handles_keep_their_address() {
    let address = Address::from_low_u64_be(0x1234);
    assert_eq!(FVMLib::new(address).address, address);
    assert_eq!(NoDelegateCall::new(address).address, address);
    assert_eq!(SafeCastLib::new(address).address, address);
    assert_eq!(IPortfolioActions::new(address).address, address);
}

#[test]
fn safe_cast_lib_deploys_without_arguments_only() {
    let deployer = SafeCastLib::deploy(vec![]).unwrap();
    assert_eq!(deployer.data, safecastlib_bytecode());
    assert_eq!(deployer.data.len(), 141);
    assert_eq!(&deployer.data[..4], &[96, 86, 96, 55]);
    assert_eq!(deployer.data[140], 51);
    assert_eq!(safecastlib_deployed_bytecode().len(), 86);
    assert_eq!(&safecastlib_bytecode()[55..], &safecastlib_deployed_bytecode()[..]);
    assert_eq!(
        SafeCastLib::deploy(vec![Token::Word(U256::zero())]),
        Err(ContractError::ConstructorError)
    );
    assert_eq!(
        SafeCastLib::deploy(vec![Token::Bytes(vec![]), Token::Bytes(vec![1])]),
        Err(ContractError::ConstructorError)
    );
}
