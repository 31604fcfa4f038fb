use arbiter::manager::{ManagerErrorKind, SimulationManager};
use arbiter::outcome::{Eval, ExecutionResult, Halt, OutOfGasError, Output};
use arbiter::primitives::Address;
use arbiter::text::append_decimal;
use revm::primitives::Halt as R;
use revm::primitives::OutOfGasError as G;

fn success(output: Output) -> ExecutionResult {
    ExecutionResult::Success {
        reason: Eval::Return,
        gas_used: 21000,
        gas_refunded: 0,
        logs: vec![],
        output,
    }
}

#[test]
fn success_of_a_call_gives_the_payload() {
    let manager = SimulationManager::new();
    let payload: Vec<u8> = (0u8..=255).collect();
    let result = manager.unpack_execution(success(Output::Call(payload.clone())));
    assert_eq!(result.unwrap(), payload);
}

#[test]
fn success_of_a_creation_gives_the_payload_and_drops_the_address() {
    let manager = SimulationManager::new();
    let payload = vec![0x60, 0x80, 0x00, 0xff];
    let with_address = success(Output::Create(payload.clone(), Some(Address::from_low_u64_be(5))));
    assert_eq!(manager.unpack_execution(with_address).unwrap(), payload);
    let without = success(Output::Create(payload.clone(), None));
    assert_eq!(manager.unpack_execution(without).unwrap(), payload);
    assert_eq!(manager.unpack_execution(success(Output::Call(vec![]))).unwrap(), Vec::<u8>::new());
}

#[test]
fn halt_gives_a_message_with_reason_and_gas() {
    let manager = SimulationManager::new();
    let error = manager
        .unpack_execution(ExecutionResult::Halt { reason: Halt::InvalidJump, gas_used: 30000 })
        .unwrap_err();
    assert_eq!(error.kind, ManagerErrorKind::ExecutionHalt);
    assert_eq!(error.message, "This call halted for InvalidJump and used 30000 gas.");
    assert!(error.message.contains("InvalidJump"));
    assert!(error.message.contains("30000"));
    assert_eq!(error.output, None);
}

#[test]
fn out_of_gas_halt_names_its_cause() {
    let manager = SimulationManager::new();
    let error = manager
        .unpack_execution(ExecutionResult::Halt {
            reason: Halt::OutOfGas(OutOfGasError::BasicOutOfGas),
            gas_used: u64::MAX,
        })
        .unwrap_err();
    assert_eq!(
        error.message,
        "This call halted for OutOfGas(\n    BasicOutOfGas,\n) and used 18446744073709551615 gas."
    );
}

#[test]
fn halt_messages_agree_with_the_backend_s_names() {
    let pairs = vec![
        (Halt::OutOfGas(OutOfGasError::BasicOutOfGas), R::OutOfGas(G::BasicOutOfGas)),
        (Halt::OutOfGas(OutOfGasError::MemoryLimit), R::OutOfGas(G::MemoryLimit)),
        (Halt::OutOfGas(OutOfGasError::Memory), R::OutOfGas(G::Memory)),
        (Halt::OutOfGas(OutOfGasError::Precompile), R::OutOfGas(G::Precompile)),
        (Halt::OutOfGas(OutOfGasError::InvalidOperand), R::OutOfGas(G::InvalidOperand)),
        (Halt::OpcodeNotFound, R::OpcodeNotFound),
        (Halt::InvalidFEOpcode, R::InvalidFEOpcode),
        (Halt::InvalidJump, R::InvalidJump),
        (Halt::NotActivated, R::NotActivated),
        (Halt::StackUnderflow, R::StackUnderflow),
        (Halt::StackOverflow, R::StackOverflow),
        (Halt::OutOfOffset, R::OutOfOffset),
        (Halt::CreateCollision, R::CreateCollision),
        (Halt::PrecompileError, R::PrecompileError),
        (Halt::NonceOverflow, R::NonceOverflow),
        (Halt::CreateContractSizeLimit, R::CreateContractSizeLimit),
        (Halt::CreateContractStartingWithEF, R::CreateContractStartingWithEF),
        (Halt::CreateInitcodeSizeLimit, R::CreateInitcodeSizeLimit),
        (Halt::OverflowPayment, R::OverflowPayment),
        (Halt::StateChangeDuringStaticCall, R::StateChangeDuringStaticCall),
        (Halt::CallNotAllowedInsideStatic, R::CallNotAllowedInsideStatic),
        (Halt::OutOfFund, R::OutOfFund),
        (Halt::CallTooDeep, R::CallTooDeep),
    ];
    let manager = SimulationManager::new();
    for (index, (reason, backend_reason)) in pairs.into_iter().enumerate() {
        let gas_used = 1000 * index as u64 + 7;
        let error =
            manager.unpack_execution(ExecutionResult::Halt { reason, gas_used }).unwrap_err();
        let expected =
            format!("This call halted for {:#?} and used {} gas.", backend_reason, gas_used);
        assert_eq!(error.message, expected);
        let mut text = String::new();
        reason.append_to(&mut text);
        assert_eq!(text, format!("{:#?}", backend_reason));
    }
}

#[test]
fn revert_gives_a_message_and_keeps_the_payload() {
    let manager = SimulationManager::new();
    let payload = vec![0x08, 0xc3, 0x79, 0xa0, b'n', b'o', b' ', b'"', b'\\', b'\n', 0, 0x7f, b'~'];
    let error = manager
        .unpack_execution(ExecutionResult::Revert { gas_used: 12345, output: payload.clone() })
        .unwrap_err();
    assert_eq!(error.kind, ManagerErrorKind::ExecutionRevert);
    assert_eq!(
        error.message,
        "This call reverted with output b\"\\x08\\xc3y\\xa0no \\\"\\\\\\n\\0\\x7f~\" and used 12345 gas."
    );
    assert_eq!(error.output, Some(payload));
}

#[test]
fn revert_message_agrees_with_the_bytes_type_for_every_byte() {
    let manager = SimulationManager::new();
    let payload: Vec<u8> = (0u8..=255).collect();
    let error = manager
        .unpack_execution(ExecutionResult::Revert { gas_used: 0, output: payload.clone() })
        .unwrap_err();
    let expected = format!(
        "This call reverted with output {:#?} and used {} gas.",
        bytes::Bytes::from(payload.clone()),
        0
    );
    assert_eq!(error.message, expected);
    assert_eq!(error.output, Some(payload));
}

#[test]
fn revert_with_empty_payload() {
    let manager = SimulationManager::new();
    let error = manager
        .unpack_execution(ExecutionResult::Revert { gas_used: 9, output: vec![] })
        .unwrap_err();
    assert_eq!(error.message, "This call reverted with output b\"\" and used 9 gas.");
    assert_eq!(error.output, Some(vec![]));
}

#[test]
fn decimal_numerals() {
    for n in [0u64, 7, 9, 10, 11, 99, 100, 1234567890, u64::MAX] {
        let mut text = String::from("x");
        append_decimal(&mut text, n);
        assert_eq!(text, format!("x{}", n));
    }
}

#[test]
fn output_data() {
    assert_eq!(Output::Call(vec![1, 2]).into_data(), vec![1, 2]);
    assert_eq!(Output::Create(vec![3], None).into_data(), vec![3]);
    assert_eq!(OutOfGasError::MemoryLimit.name(), "MemoryLimit");
}
