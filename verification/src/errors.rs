use vstd::prelude::*;
use crate::amounts::Uint256;
use crate::ids::{Address, Bytes32};

verus! {

/// Everything that can abort an operation. Precondition failures carry the
/// values that caused them; `SubmissionFailed` carries the raw transport
/// error text.
#[derive(Debug)]
pub enum VaultError {
    InsufficientBalance { required: Uint256, available: Uint256 },
    Unauthorized { caller: Address, owner: Address },
    NoFundsAvailable,
    ApprovalFailed,
    SubmissionFailed { message: Vec<u8> },
    TransactionReverted { hash: Bytes32 },
    SigningError,
}

} // verus!
