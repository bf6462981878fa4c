use vstd::prelude::*;
use crate::amounts::Uint256;
use crate::errors::VaultError;
use crate::ids::Address;

verus! {

/// The deposit preconditions read from chain state: the payer's token
/// balance, the allowance already granted to the vault, and whether a
/// separate approval transaction is still needed.
pub struct DepositCheck {
    pub balance: Uint256,
    pub allowance: Uint256,
    pub needs_approval: bool,
}

/// Decides whether a deposit of `required` may proceed, given the payer's
/// current token `balance` and the vault's current `allowance`. Fails fast
/// with `InsufficientBalance` when the balance cannot cover the deposit;
/// otherwise reports whether an approval step is needed, which is the case
/// exactly when the allowance is below the required amount.
pub fn check_deposit(balance: Uint256, allowance: Uint256, required: Uint256) -> (r: Result<
    DepositCheck,
    VaultError,
>)
    ensures
        r is Err <==> balance@ < required@,
        (r matches Err(e) ==> e matches VaultError::InsufficientBalance {
            required: rq,
            available: av,
        } && rq == required && av == balance),
        (r matches Ok(c) ==> c.balance == balance && c.allowance == allowance && c.needs_approval
            == (allowance@ < required@)),
{
    if balance.lt(&required) {
        Err(VaultError::InsufficientBalance { required, available: balance })
    } else {
        Ok(DepositCheck { balance, allowance, needs_approval: allowance.lt(&required) })
    }
}

/// The withdraw preconditions read from chain state: the vault's own token
/// balance, kept only after the caller has been confirmed as the owner.
pub struct WithdrawCheck {
    pub contract_balance: Uint256,
}

/// Decides whether `caller` may withdraw, given the vault's declared `owner`
/// and the vault's token balance. A non-owner is rejected with
/// `Unauthorized` before anything else is looked at; an owner withdrawing
/// from an empty vault is rejected with `NoFundsAvailable`.
pub fn check_withdraw(caller: &Address, owner: &Address, contract_balance: Uint256) -> (r: Result<
    WithdrawCheck,
    VaultError,
>)
    ensures
        caller@ != owner@ ==> (r matches Err(e) && e matches VaultError::Unauthorized {
            caller: c,
            owner: o,
        } && c == *caller && o == *owner),
        caller@ == owner@ && contract_balance@ == 0 ==> (r matches Err(e) && e
            matches VaultError::NoFundsAvailable),
        caller@ == owner@ && contract_balance@ > 0 ==> (r matches Ok(c) && c.contract_balance
            == contract_balance),
        r is Ok <==> (caller@ == owner@ && contract_balance@ > 0),
{
    if !caller.same_as(owner) {
        Err(VaultError::Unauthorized { caller: *caller, owner: *owner })
    } else if contract_balance.is_zero() {
        Err(VaultError::NoFundsAvailable)
    } else {
        Ok(WithdrawCheck { contract_balance })
    }
}

} // verus!
