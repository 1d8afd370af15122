//! Verified cores of five small storage contracts: a two-owner approval
//! gate, a token ledger, a key-value vault, a counter and a Fibonacci
//! calculator. Each contract is a plain state value with methods whose
//! contracts say exactly what a call returns and how it changes the state;
//! the caller's identity is always an explicit argument.

pub mod address;
pub mod counter;
pub mod erc20;
pub mod fibonacci;
pub mod ledger;
pub mod multisig;
pub mod vault;
pub mod word;

pub use address::Address;
pub use counter::Counter;
pub use erc20::Erc20;
pub use fibonacci::Fibonacci;
pub use ledger::Ledger;
pub use multisig::{MultiSig, MultiSigError, Phase, Precondition};
pub use vault::Vault;
pub use word::U256;
