pub mod abi;
pub mod contract;
pub mod fvm_lib;
pub mod i_portfolio_actions;
pub mod no_delegate_call;
pub mod safe_cast_lib;
