use vstd::prelude::*;
use crate::abi::{
    approve_calldata, deposit_calldata, deposit_with_permit_calldata, encode_approve,
    encode_deposit, encode_deposit_with_permit, encode_withdraw, withdraw_calldata,
};
use crate::amounts::{u256_of_u64, Uint256};
use crate::checker::{check_deposit, check_withdraw};
use crate::eip712::{permit_digest_of, PermitDomain, PermitMessage};
use crate::errors::VaultError;
use crate::events::{
    decoded_events_of, degraded_count_of, interpret_receipt, DecodedEvent, EventKind, Settlement,
    TransactionOutcome,
};
use crate::ids::{Address, OrderId};
use crate::signing::{ecdsa_sign_ok, permit_signature_of, secret_key_valid, sign_permit};
use crate::submission::{contains_bytes, duplicate_marker, is_duplicate_submission};

verus! {

/// One of the three supported settlements. Immutable once chosen; it decides
/// which preconditions are read and which vault method is called.
pub enum Operation {
    Deposit { order_id: OrderId, amount: u64 },
    PermitDeposit { order_id: OrderId, amount: u64, deadline: u64 },
    Withdraw,
}

impl Operation {
    /// The event shape this operation's settlement is expected to emit.
    pub open spec fn spec_event_kind(&self) -> EventKind {
        match self {
            Operation::Withdraw => EventKind::Withdraw,
            _ => EventKind::Deposit,
        }
    }

    pub fn event_kind(&self) -> (r: EventKind)
        ensures
            r == self.spec_event_kind(),
    {
        match self {
            Operation::Withdraw => EventKind::Withdraw,
            _ => EventKind::Deposit,
        }
    }
}

/// What one run owns: the holder's address, the vault contract's address,
/// and the holder's raw signing key (used only on the permit path).
pub struct SessionConfig {
    pub wallet: Address,
    pub vault: Address,
    pub signing_key: Vec<u8>,
}

/// What the session is waiting for next.
pub enum Phase {
    AwaitToken,
    AwaitState { token: Address },
    AwaitApproveSubmit { token: Address },
    AwaitApproveReceipt { token: Address },
    AwaitMainSubmit,
    AwaitMainReceipt,
    Finished,
}

/// What the surrounding driver observed: a chain-state reply, the result of
/// handing a transaction to the transport, or a mined receipt.
pub enum ChainEvent {
    TokenAddress { token: Address },
    DepositState { balance: Uint256, allowance: Uint256 },
    PermitState { balance: Uint256, nonce: Uint256, chain_id: u64, name: Vec<u8>, version: Vec<u8> },
    WithdrawState { owner: Address, vault_balance: Uint256 },
    Submitted { error: Option<Vec<u8>> },
    ReceiptReady { outcome: TransactionOutcome },
}

/// What the driver must do next. Queries are read-only; exactly the
/// `SubmitTransaction` actions spend gas.
pub enum ProtocolAction {
    QueryTokenAddress,
    QueryDepositState { token: Address },
    QueryPermitState { token: Address },
    QueryWithdrawState { token: Address },
    SubmitTransaction { to: Address, calldata: Vec<u8> },
    WaitForReceipt,
    Report { outcome: RunOutcome },
}

/// The single pass/fail outcome of a run. `AlreadyPending` is the
/// idempotency case: the transaction was already in the pending pool, so the
/// prior submission is authoritative and nothing new was sent.
pub enum RunOutcome {
    Settled { settlement: Settlement },
    AlreadyPending,
    Failed { error: VaultError },
}

/// One settlement run: the operation, the run's own key material and
/// addresses, and the phase reached so far.
pub struct Session {
    pub config: SessionConfig,
    pub op: Operation,
    pub phase: Phase,
}

impl Session {
    /// The approval detour only exists on the plain deposit path.
    pub open spec fn wf(&self) -> bool {
        match self.phase {
            Phase::AwaitApproveSubmit { .. } => self.op is Deposit,
            Phase::AwaitApproveReceipt { .. } => self.op is Deposit,
            _ => true,
        }
    }

    /// Which event the session can take in its current phase.
    pub open spec fn expects(&self, event: ChainEvent) -> bool {
        match self.phase {
            Phase::AwaitToken => event is TokenAddress,
            Phase::AwaitState { .. } => match self.op {
                Operation::Deposit { .. } => event is DepositState,
                Operation::PermitDeposit { .. } => event is PermitState,
                Operation::Withdraw => event is WithdrawState,
            },
            Phase::AwaitApproveSubmit { .. } => event is Submitted,
            Phase::AwaitApproveReceipt { .. } => event is ReceiptReady,
            Phase::AwaitMainSubmit => event is Submitted,
            Phase::AwaitMainReceipt => event is ReceiptReady,
            Phase::Finished => false,
        }
    }
}

/// The transition relation of the settlement protocol: what the next phase
/// and action are for each phase and event, pinned down for every case.
pub open spec fn step_spec(
    pre: Session,
    event: ChainEvent,
    post: Session,
    action: ProtocolAction,
) -> bool {
    &&& post.config == pre.config
    &&& post.op == pre.op
    &&& (post.phase is Finished <==> action is Report)
    &&& match pre.phase {
        Phase::AwaitToken => match event {
            ChainEvent::TokenAddress { token } => {
                &&& (post.phase matches Phase::AwaitState { token: t } && t == token)
                &&& match pre.op {
                    Operation::Deposit { .. } => action
                        matches ProtocolAction::QueryDepositState { token: t } && t == token,
                    Operation::PermitDeposit { .. } => action
                        matches ProtocolAction::QueryPermitState { token: t } && t == token,
                    Operation::Withdraw => action matches ProtocolAction::QueryWithdrawState {
                        token: t,
                    } && t == token,
                }
            },
            _ => true,
        },
        Phase::AwaitState { token } => match (event, pre.op) {
            (
                ChainEvent::DepositState { balance, allowance },
                Operation::Deposit { order_id, amount },
            ) => {
                let required = u256_of_u64(amount);
                &&& balance@ < required@ ==> (post.phase is Finished && (action
                    matches ProtocolAction::Report {
                        outcome: RunOutcome::Failed {
                            error: VaultError::InsufficientBalance { required: rq, available: av },
                        },
                    } && rq == required && av == balance))
                &&& (balance@ >= required@ && allowance@ < required@) ==> {
                    &&& (post.phase matches Phase::AwaitApproveSubmit { token: t } && t == token)
                    &&& (action matches ProtocolAction::SubmitTransaction { to, calldata } && to
                        == token && calldata@ == approve_calldata(pre.config.vault@, required))
                }
                &&& (balance@ >= required@ && allowance@ >= required@) ==> {
                    &&& post.phase is AwaitMainSubmit
                    &&& (action matches ProtocolAction::SubmitTransaction { to, calldata } && to
                        == pre.config.vault && calldata@ == deposit_calldata(order_id@, required))
                }
            },
            (
                ChainEvent::PermitState { balance, nonce, chain_id, name, version },
                Operation::PermitDeposit { order_id, amount, deadline },
            ) => {
                let required = u256_of_u64(amount);
                let domain = (PermitDomain { name, version, chain_id, verifying_contract: token });
                let message = (PermitMessage {
                    owner: pre.config.wallet,
                    spender: pre.config.vault,
                    value: required,
                    nonce,
                    deadline: u256_of_u64(deadline),
                });
                &&& balance@ < required@ ==> (post.phase is Finished && (action
                    matches ProtocolAction::Report {
                        outcome: RunOutcome::Failed {
                            error: VaultError::InsufficientBalance { required: rq, available: av },
                        },
                    } && rq == required && av == balance))
                &&& {
                    let key = pre.config.signing_key@;
                    let signs = secret_key_valid(key) && ecdsa_sign_ok(
                        key,
                        permit_digest_of(domain, message),
                    );
                    &&& (balance@ >= required@ && !signs) ==> (post.phase is Finished && (action
                        matches ProtocolAction::Report {
                            outcome: RunOutcome::Failed { error: VaultError::SigningError },
                        }))
                    &&& (balance@ >= required@ && signs) ==> {
                        let (v, r, s) = permit_signature_of(key, domain, message);
                        &&& post.phase is AwaitMainSubmit
                        &&& (action matches ProtocolAction::SubmitTransaction { to, calldata }
                            && to == pre.config.vault && calldata@ == deposit_with_permit_calldata(
                            order_id@,
                            required,
                            u256_of_u64(deadline),
                            v,
                            r,
                            s,
                        ))
                    }
                }
            },
            (ChainEvent::WithdrawState { owner, vault_balance }, Operation::Withdraw) => {
                &&& pre.config.wallet@ != owner@ ==> (post.phase is Finished && (action
                    matches ProtocolAction::Report {
                        outcome: RunOutcome::Failed {
                            error: VaultError::Unauthorized { caller, owner: o },
                        },
                    } && caller == pre.config.wallet && o == owner))
                &&& (pre.config.wallet@ == owner@ && vault_balance@ == 0) ==> (post.phase
                    is Finished && (action matches ProtocolAction::Report {
                    outcome: RunOutcome::Failed { error: VaultError::NoFundsAvailable },
                }))
                &&& (pre.config.wallet@ == owner@ && vault_balance@ > 0) ==> {
                    &&& post.phase is AwaitMainSubmit
                    &&& (action matches ProtocolAction::SubmitTransaction { to, calldata } && to
                        == pre.config.vault && calldata@ == withdraw_calldata())
                }
            },
            _ => true,
        },
        Phase::AwaitApproveSubmit { token } => match event {
            ChainEvent::Submitted { error } => match error {
                None => {
                    &&& (post.phase matches Phase::AwaitApproveReceipt { token: t } && t == token)
                    &&& action is WaitForReceipt
                },
                Some(message) => post.phase is Finished && (action
                    matches ProtocolAction::Report {
                        outcome: RunOutcome::Failed {
                            error: VaultError::SubmissionFailed { message: m },
                        },
                    } && m@ == message@),
            },
            _ => true,
        },
        Phase::AwaitApproveReceipt { .. } => match (event, pre.op) {
            (ChainEvent::ReceiptReady { outcome }, Operation::Deposit { order_id, amount }) => {
                &&& outcome.success ==> {
                    &&& post.phase is AwaitMainSubmit
                    &&& (action matches ProtocolAction::SubmitTransaction { to, calldata } && to
                        == pre.config.vault && calldata@ == deposit_calldata(
                        order_id@,
                        u256_of_u64(amount),
                    ))
                }
                &&& !outcome.success ==> (post.phase is Finished && (action
                    matches ProtocolAction::Report {
                        outcome: RunOutcome::Failed { error: VaultError::ApprovalFailed },
                    }))
            },
            _ => true,
        },
        Phase::AwaitMainSubmit => match event {
            ChainEvent::Submitted { error } => match error {
                None => post.phase is AwaitMainReceipt && action is WaitForReceipt,
                Some(message) => {
                    &&& contains_bytes(message@, duplicate_marker()) ==> (post.phase is Finished
                        && (action matches ProtocolAction::Report {
                        outcome: RunOutcome::AlreadyPending,
                    }))
                    &&& !contains_bytes(message@, duplicate_marker()) ==> (post.phase is Finished
                        && (action matches ProtocolAction::Report {
                        outcome: RunOutcome::Failed {
                            error: VaultError::SubmissionFailed { message: m },
                        },
                    } && m@ == message@))
                },
            },
            _ => true,
        },
        Phase::AwaitMainReceipt => match event {
            ChainEvent::ReceiptReady { outcome } => {
                &&& !outcome.success ==> (post.phase is Finished && (action
                    matches ProtocolAction::Report {
                        outcome: RunOutcome::Failed {
                            error: VaultError::TransactionReverted { hash: h },
                        },
                    } && h == outcome.hash))
                &&& outcome.success ==> (post.phase is Finished && (action
                    matches ProtocolAction::Report { outcome: RunOutcome::Settled { settlement } }
                    && settlement.hash == outcome.hash && settlement.events@.map_values(
                    |e: DecodedEvent| e@,
                ) == decoded_events_of(outcome.logs@, pre.op.spec_event_kind())
                    && settlement.degraded == degraded_count_of(
                    outcome.logs@,
                    pre.op.spec_event_kind(),
                )))
            },
            _ => true,
        },
        Phase::Finished => true,
    }
}

/// Opens a settlement run. The first thing every operation needs is the
/// token contract's address, read from the vault.
pub fn start(config: SessionConfig, op: Operation) -> (r: (Session, ProtocolAction))
    ensures
        r.0.config == config,
        r.0.op == op,
        r.0.phase is AwaitToken,
        r.0.wf(),
        r.1 is QueryTokenAddress,
{
    (Session { config, op, phase: Phase::AwaitToken }, ProtocolAction::QueryTokenAddress)
}

/// Advances the run by one observed event, returning the new session state
/// and the next action for the driver. The contract is the protocol's
/// transition relation, `step_spec`.
pub fn step(session: Session, event: ChainEvent) -> (r: (Session, ProtocolAction))
    requires
        session.wf(),
        !(session.phase is Finished),
        session.expects(event),
    ensures
        step_spec(session, event, r.0, r.1),
        r.0.wf(),
{
    let Session { config, op, phase } = session;
    match phase {
        Phase::AwaitToken => {
            match event {
                ChainEvent::TokenAddress { token } => {
                    let action = match &op {
                        Operation::Deposit { .. } => ProtocolAction::QueryDepositState { token },
                        Operation::PermitDeposit { .. } => ProtocolAction::QueryPermitState {
                            token,
                        },
                        Operation::Withdraw => ProtocolAction::QueryWithdrawState { token },
                    };
                    (Session { config, op, phase: Phase::AwaitState { token } }, action)
                },
                _ => unreached(),
            }
        },
        Phase::AwaitState { token } => {
            match event {
                ChainEvent::DepositState { balance, allowance } => {
                    match &op {
                        Operation::Deposit { order_id, amount } => {
                            let required = Uint256::from_u64(*amount);
                            match check_deposit(balance, allowance, required) {
                                Err(e) => (
                                    Session { config, op, phase: Phase::Finished },
                                    ProtocolAction::Report {
                                        outcome: RunOutcome::Failed { error: e },
                                    },
                                ),
                                Ok(check) => {
                                    if check.needs_approval {
                                        let calldata = encode_approve(&config.vault, &required);
                                        (
                                            Session {
                                                config,
                                                op,
                                                phase: Phase::AwaitApproveSubmit { token },
                                            },
                                            ProtocolAction::SubmitTransaction {
                                                to: token,
                                                calldata,
                                            },
                                        )
                                    } else {
                                        let calldata = encode_deposit(order_id, &required);
                                        let to = config.vault;
                                        (
                                            Session { config, op, phase: Phase::AwaitMainSubmit },
                                            ProtocolAction::SubmitTransaction { to, calldata },
                                        )
                                    }
                                },
                            }
                        },
                        _ => unreached(),
                    }
                },
                ChainEvent::PermitState { balance, nonce, chain_id, name, version } => {
                    match &op {
                        Operation::PermitDeposit { order_id, amount, deadline } => {
                            let required = Uint256::from_u64(*amount);
                            if balance.lt(&required) {
                                (
                                    Session { config, op, phase: Phase::Finished },
                                    ProtocolAction::Report {
                                        outcome: RunOutcome::Failed {
                                            error: VaultError::InsufficientBalance {
                                                required,
                                                available: balance,
                                            },
                                        },
                                    },
                                )
                            } else {
                                let domain = PermitDomain {
                                    name,
                                    version,
                                    chain_id,
                                    verifying_contract: token,
                                };
                                let deadline_word = Uint256::from_u64(*deadline);
                                let message = PermitMessage {
                                    owner: config.wallet,
                                    spender: config.vault,
                                    value: required,
                                    nonce,
                                    deadline: deadline_word,
                                };
                                match sign_permit(&config.signing_key, &domain, &message) {
                                    Err(_) => (
                                        Session { config, op, phase: Phase::Finished },
                                        ProtocolAction::Report {
                                            outcome: RunOutcome::Failed {
                                                error: VaultError::SigningError,
                                            },
                                        },
                                    ),
                                    Ok(sig) => {
                                        let calldata = encode_deposit_with_permit(
                                            order_id,
                                            &required,
                                            &deadline_word,
                                            &sig,
                                        );
                                        let to = config.vault;
                                        (
                                            Session { config, op, phase: Phase::AwaitMainSubmit },
                                            ProtocolAction::SubmitTransaction { to, calldata },
                                        )
                                    },
                                }
                            }
                        },
                        _ => unreached(),
                    }
                },
                ChainEvent::WithdrawState { owner, vault_balance } => {
                    match check_withdraw(&config.wallet, &owner, vault_balance) {
                        Err(e) => (
                            Session { config, op, phase: Phase::Finished },
                            ProtocolAction::Report { outcome: RunOutcome::Failed { error: e } },
                        ),
                        Ok(_) => {
                            let calldata = encode_withdraw();
                            let to = config.vault;
                            (
                                Session { config, op, phase: Phase::AwaitMainSubmit },
                                ProtocolAction::SubmitTransaction { to, calldata },
                            )
                        },
                    }
                },
                _ => unreached(),
            }
        },
        Phase::AwaitApproveSubmit { token } => {
            match event {
                ChainEvent::Submitted { error } => {
                    match error {
                        None => (
                            Session { config, op, phase: Phase::AwaitApproveReceipt { token } },
                            ProtocolAction::WaitForReceipt,
                        ),
                        Some(message) => (
                            Session { config, op, phase: Phase::Finished },
                            ProtocolAction::Report {
                                outcome: RunOutcome::Failed {
                                    error: VaultError::SubmissionFailed { message },
                                },
                            },
                        ),
                    }
                },
                _ => unreached(),
            }
        },
        Phase::AwaitApproveReceipt { token: _ } => {
            match event {
                ChainEvent::ReceiptReady { outcome } => {
                    if outcome.success {
                        match &op {
                            Operation::Deposit { order_id, amount } => {
                                let required = Uint256::from_u64(*amount);
                                let calldata = encode_deposit(order_id, &required);
                                let to = config.vault;
                                (
                                    Session { config, op, phase: Phase::AwaitMainSubmit },
                                    ProtocolAction::SubmitTransaction { to, calldata },
                                )
                            },
                            _ => unreached(),
                        }
                    } else {
                        (
                            Session { config, op, phase: Phase::Finished },
                            ProtocolAction::Report {
                                outcome: RunOutcome::Failed { error: VaultError::ApprovalFailed },
                            },
                        )
                    }
                },
                _ => unreached(),
            }
        },
        Phase::AwaitMainSubmit => {
            match event {
                ChainEvent::Submitted { error } => {
                    match error {
                        None => (
                            Session { config, op, phase: Phase::AwaitMainReceipt },
                            ProtocolAction::WaitForReceipt,
                        ),
                        Some(message) => {
                            if is_duplicate_submission(message.as_slice()) {
                                (
                                    Session { config, op, phase: Phase::Finished },
                                    ProtocolAction::Report {
                                        outcome: RunOutcome::AlreadyPending,
                                    },
                                )
                            } else {
                                (
                                    Session { config, op, phase: Phase::Finished },
                                    ProtocolAction::Report {
                                        outcome: RunOutcome::Failed {
                                            error: VaultError::SubmissionFailed { message },
                                        },
                                    },
                                )
                            }
                        },
                    }
                },
                _ => unreached(),
            }
        },
        Phase::AwaitMainReceipt => {
            match event {
                ChainEvent::ReceiptReady { outcome } => {
                    let kind = op.event_kind();
                    match interpret_receipt(&outcome, kind) {
                        Err(e) => (
                            Session { config, op, phase: Phase::Finished },
                            ProtocolAction::Report { outcome: RunOutcome::Failed { error: e } },
                        ),
                        Ok(settlement) => (
                            Session { config, op, phase: Phase::Finished },
                            ProtocolAction::Report {
                                outcome: RunOutcome::Settled { settlement },
                            },
                        ),
                    }
                },
                _ => unreached(),
            }
        },
        Phase::Finished => unreached(),
    }
}


/// Law: a deposit whose balance cannot cover the required amount is rejected
/// with `InsufficientBalance` carrying the required and available amounts,
/// and the run ends with no transaction ever submitted.
pub proof fn lemma_insufficient_deposit_never_submits(
    pre: Session,
    balance: Uint256,
    allowance: Uint256,
    post: Session,
    action: ProtocolAction,
)
    requires
        pre.phase is AwaitState,
        pre.op matches Operation::Deposit { amount, .. } && balance@ < u256_of_u64(amount)@,
        step_spec(pre, ChainEvent::DepositState { balance, allowance }, post, action),
    ensures
        post.phase is Finished,
        !(action is SubmitTransaction),
        pre.op matches Operation::Deposit { amount, .. } ==> (action
            matches ProtocolAction::Report {
                outcome: RunOutcome::Failed {
                    error: VaultError::InsufficientBalance { required, available },
                },
            } && required == u256_of_u64(amount) && available == balance),
{
}

/// Law: a submission error that carries the duplicate-submission marker ends
/// the run as a non-error success, and no further transaction is built or
/// submitted; the prior in-flight transaction is presumed authoritative.
pub proof fn lemma_duplicate_submission_is_success(
    pre: Session,
    message: Vec<u8>,
    post: Session,
    action: ProtocolAction,
)
    requires
        pre.phase is AwaitMainSubmit,
        contains_bytes(message@, duplicate_marker()),
        step_spec(pre, ChainEvent::Submitted { error: Some(message) }, post, action),
    ensures
        post.phase is Finished,
        !(action is SubmitTransaction),
        action matches ProtocolAction::Report { outcome: RunOutcome::AlreadyPending },
{
}

/// Law: on the permit path, when the balance covers the deposit and the
/// signer accepts the key and signs the digest, the step submits the single
/// permit-deposit transaction to the vault; `SigningError` is never reported
/// for a key that signs.
pub proof fn lemma_permit_submits_when_key_signs(
    pre: Session,
    balance: Uint256,
    nonce: Uint256,
    chain_id: u64,
    name: Vec<u8>,
    version: Vec<u8>,
    post: Session,
    action: ProtocolAction,
)
    requires
        pre.phase matches Phase::AwaitState { token } && pre.op
            matches Operation::PermitDeposit { order_id, amount, deadline } && balance@
            >= u256_of_u64(amount)@ && secret_key_valid(pre.config.signing_key@) && ecdsa_sign_ok(
            pre.config.signing_key@,
            permit_digest_of(
                (PermitDomain { name, version, chain_id, verifying_contract: token }),
                (PermitMessage {
                    owner: pre.config.wallet,
                    spender: pre.config.vault,
                    value: u256_of_u64(amount),
                    nonce,
                    deadline: u256_of_u64(deadline),
                }),
            ),
        ),
        step_spec(
            pre,
            ChainEvent::PermitState { balance, nonce, chain_id, name, version },
            post,
            action,
        ),
    ensures
        post.phase is AwaitMainSubmit,
        (action matches ProtocolAction::SubmitTransaction { to, .. } && to == pre.config.vault),
{
}

/// Law: a withdraw attempted by anyone but the declared owner fails with
/// `Unauthorized`, naming the caller and the owner, before any transaction
/// is built or submitted.
pub proof fn lemma_unauthorized_withdraw_never_submits(
    pre: Session,
    owner: Address,
    vault_balance: Uint256,
    post: Session,
    action: ProtocolAction,
)
    requires
        pre.phase is AwaitState,
        pre.op is Withdraw,
        pre.config.wallet@ != owner@,
        step_spec(pre, ChainEvent::WithdrawState { owner, vault_balance }, post, action),
    ensures
        post.phase is Finished,
        !(action is SubmitTransaction),
        (action matches ProtocolAction::Report {
            outcome: RunOutcome::Failed { error: VaultError::Unauthorized { caller, owner: o } },
        } && caller == pre.config.wallet && o == owner),
{
}

} // verus!
